//! The browser backend, shaped like libdatachannel's Rust API: its types,
//! and every decision it makes between the caller and the browser.
//!
//! The browser itself is reached by the driver around this module: it
//! names browser enum values by their WebRTC string form (`"offer"`,
//! `"connected"`, `"have-remote-offer"`, ...) and hands them here.
use vstd::prelude::*;
use vstd::string::*;

use crate::ice::IceServerSpec;
use crate::text::str_eq;

verus! {

/// Whatever the browser threw, as an error.
#[derive(Debug)]
pub struct Error(String);

impl View for Error {
    type V = Seq<char>;

    closed spec fn view(&self) -> Seq<char> {
        self.0@
    }
}

impl Error {
    /// An error carrying `message`.
    pub fn new(message: String) -> (r: Error)
        ensures
            r@ == message@,
    {
        Error(message)
    }

    /// The error made of a thrown value: the message of a JS `Error`
    /// when the value is one, otherwise the value's debug rendering.
    pub fn from_thrown(message: Option<String>, rendering: String) -> (r: Error)
        ensures
            r@ == match message {
                Some(m) => m@,
                None => rendering@,
            },
    {
        match message {
            Some(m) => Error(m),
            None => Error(rendering),
        }
    }

    /// The error's text.
    pub fn message(&self) -> (r: &str)
        ensures
            r@ == self@,
    {
        self.0.as_str()
    }

    /// The error's text, as its `Display` would write it.
    pub fn to_string(&self) -> (r: String)
        ensures
            r@ == self@,
    {
        self.0.clone()
    }
}

/// Which half of an offer/answer exchange a description is.
#[derive(Clone, Copy, Debug, PartialEq, Eq, Structural)]
pub enum SdpType {
    Answer,
    Offer,
    Pranswer,
    Rollback,
}

/// The WebRTC name of an SDP type.
pub open spec fn sdp_type_name(t: SdpType) -> Seq<char> {
    match t {
        SdpType::Answer => "answer"@,
        SdpType::Offer => "offer"@,
        SdpType::Pranswer => "pranswer"@,
        SdpType::Rollback => "rollback"@,
    }
}

/// The SDP type a WebRTC name stands for, if any.
pub open spec fn sdp_type_named(name: Seq<char>) -> Option<SdpType> {
    if name == "answer"@ {
        Some(SdpType::Answer)
    } else if name == "offer"@ {
        Some(SdpType::Offer)
    } else if name == "pranswer"@ {
        Some(SdpType::Pranswer)
    } else if name == "rollback"@ {
        Some(SdpType::Rollback)
    } else {
        None
    }
}

impl SdpType {
    /// The browser's name for this type.
    pub fn to_web(self) -> (r: &'static str)
        ensures
            r@ == sdp_type_name(self),
            self == SdpType::Answer ==> r@ == "answer"@,
            self == SdpType::Offer ==> r@ == "offer"@,
            self == SdpType::Pranswer ==> r@ == "pranswer"@,
            self == SdpType::Rollback ==> r@ == "rollback"@,
    {
        match self {
            SdpType::Answer => "answer",
            SdpType::Offer => "offer",
            SdpType::Pranswer => "pranswer",
            SdpType::Rollback => "rollback",
        }
    }

    /// The type a browser name stands for; `None` for a name this API
    /// does not know.
    pub fn from_web(name: &str) -> (r: Option<SdpType>)
        ensures
            r == sdp_type_named(name@),
            name@ == "answer"@ ==> r == Some(SdpType::Answer),
            name@ == "offer"@ ==> r == Some(SdpType::Offer),
            name@ == "pranswer"@ ==> r == Some(SdpType::Pranswer),
            name@ == "rollback"@ ==> r == Some(SdpType::Rollback),
            r matches Some(t) ==> name@ == sdp_type_name(t),
    {
        proof {
            lemma_sdp_type_names_distinct();
        }
        if str_eq(name, "answer") {
            Some(SdpType::Answer)
        } else if str_eq(name, "offer") {
            Some(SdpType::Offer)
        } else if str_eq(name, "pranswer") {
            Some(SdpType::Pranswer)
        } else if str_eq(name, "rollback") {
            Some(SdpType::Rollback)
        } else {
            None
        }
    }
}

/// The four SDP type names are pairwise different.
proof fn lemma_sdp_type_names_distinct()
    ensures
        "answer"@ != "offer"@,
        "answer"@ != "pranswer"@,
        "answer"@ != "rollback"@,
        "offer"@ != "pranswer"@,
        "offer"@ != "rollback"@,
        "pranswer"@ != "rollback"@,
{
    reveal_strlit("answer");
    reveal_strlit("offer");
    reveal_strlit("pranswer");
    reveal_strlit("rollback");
    assert("answer"@[0] == 'a' && "offer"@[0] == 'o' && "pranswer"@[0] == 'p');
    assert("rollback"@[0] == 'r');
}

/// Each SDP type goes by its fixed WebRTC name (`answer`, `offer`,
/// `pranswer`, `rollback`), and a name stands for a type exactly when it
/// is that type's name: reading names is the inverse of naming types.
pub proof fn lemma_sdp_type_names(t: SdpType, name: Seq<char>)
    ensures
        sdp_type_name(SdpType::Answer) == "answer"@,
        sdp_type_name(SdpType::Offer) == "offer"@,
        sdp_type_name(SdpType::Pranswer) == "pranswer"@,
        sdp_type_name(SdpType::Rollback) == "rollback"@,
        sdp_type_named(name) == Some(t) <==> name == sdp_type_name(t),
        sdp_type_named("rollback"@) == Some(SdpType::Rollback),
        sdp_type_named("answer"@) == Some(SdpType::Answer),
{
    lemma_sdp_type_names_distinct();
}

/// Every SDP type survives the trip to the browser's name and back.
pub proof fn lemma_sdp_type_round_trip(t: SdpType)
    ensures
        sdp_type_named(sdp_type_name(t)) == Some(t),
{
    lemma_sdp_type_names_distinct();
}

/// A full session description.
#[derive(Clone, Debug)]
pub struct Description {
    pub type_: SdpType,
    pub sdp: String,
}

/// A session description as the browser holds it: its type by name.
#[derive(Clone, Debug)]
pub struct RawDescription {
    pub type_: String,
    pub sdp: String,
}

/// Why reading a description failed.
pub open spec fn no_description_message() -> Seq<char> {
    "no description"@
}

/// Why reading a description of an unknown type failed.
pub open spec fn unknown_sdp_type_message() -> Seq<char> {
    "unknown sdp type"@
}

/// Reading a description fails with "no description" when there is
/// none, and with "unknown sdp type" when its type has no name here.
pub proof fn lemma_description_messages()
    ensures
        no_description_message() == "no description"@,
        unknown_sdp_type_message() == "unknown sdp type"@,
        no_description_message() != unknown_sdp_type_message(),
{
    reveal_strlit("no description");
    reveal_strlit("unknown sdp type");
    assert("no description"@[0] == 'n' && "unknown sdp type"@[0] == 'u');
}

/// A browser-held description as its type name and SDP text.
pub open spec fn raw_description_view(desc: Option<RawDescription>) -> Option<(Seq<char>, Seq<char>)> {
    match desc {
        Some(d) => Some((d.type_@, d.sdp@)),
        None => None,
    }
}

/// What reading a description gives: its type and SDP, or why not.
pub open spec fn description_outcome(desc: Option<(Seq<char>, Seq<char>)>) -> Result<
    (SdpType, Seq<char>),
    Seq<char>,
> {
    match desc {
        None => Err(no_description_message()),
        Some((name, sdp)) => match sdp_type_named(name) {
            None => Err(unknown_sdp_type_message()),
            Some(t) => Ok((t, sdp)),
        },
    }
}

/// A description read from the browser: an error when there is none, or
/// when its type is not one this API names.
pub fn description(desc: Option<RawDescription>) -> (r: Result<Description, Error>)
    ensures
        description_outcome(raw_description_view(desc)) == match r {
            Ok(v) => Ok((v.type_, v.sdp@)),
            Err(e) => Err(e@),
        },
{
    let Some(d) = desc else {
        return Err(Error::new(String::from_str("no description")));
    };
    match SdpType::from_web(d.type_.as_str()) {
        None => Err(Error::new(String::from_str("unknown sdp type"))),
        Some(type_) => Ok(Description { type_, sdp: d.sdp }),
    }
}

/// A description the browser holds under the name of a known type reads
/// back as that type, with its SDP unchanged.
pub proof fn lemma_description_round_trip(t: SdpType, sdp: Seq<char>)
    ensures
        description_outcome(Some((sdp_type_name(t), sdp))) == Ok::<(SdpType, Seq<char>), Seq<char>>((t, sdp)),
{
    lemma_sdp_type_round_trip(t);
}

/// Connection lifecycle, named as libdatachannel names it.
#[derive(Clone, Copy, Debug, PartialEq, Eq, Structural)]
pub enum State {
    Connecting,
    Connected,
    Disconnected,
    Failed,
    Closed,
}

/// The lifecycle state a browser connection state maps to. The browser's
/// `new` maps onto `Connecting`: libdatachannel has no distinct
/// pre-connection state.
pub open spec fn state_named(name: Seq<char>) -> State {
    if name == "connected"@ {
        State::Connected
    } else if name == "disconnected"@ {
        State::Disconnected
    } else if name == "failed"@ {
        State::Failed
    } else if name == "closed"@ {
        State::Closed
    } else {
        State::Connecting
    }
}

/// The state the browser's `connectionState` names.
pub fn state_from_web(name: &str) -> (r: State)
    ensures
        r == state_named(name@),
{
    if str_eq(name, "connected") {
        State::Connected
    } else if str_eq(name, "disconnected") {
        State::Disconnected
    } else if str_eq(name, "failed") {
        State::Failed
    } else if str_eq(name, "closed") {
        State::Closed
    } else {
        State::Connecting
    }
}

/// The browser's connection states map onto libdatachannel's by name:
/// `connected`, `disconnected`, `failed` and `closed` to their namesakes,
/// and both `new` and `connecting` to `Connecting`.
pub proof fn lemma_state_names()
    ensures
        state_named("connected"@) == State::Connected,
        state_named("disconnected"@) == State::Disconnected,
        state_named("failed"@) == State::Failed,
        state_named("closed"@) == State::Closed,
        state_named("new"@) == State::Connecting,
        state_named("connecting"@) == State::Connecting,
{
    reveal_strlit("connected");
    reveal_strlit("disconnected");
    reveal_strlit("failed");
    reveal_strlit("closed");
    reveal_strlit("new");
    reveal_strlit("connecting");
    assert("connected"@[0] == 'c' && "connected"@[3] == 'n');
    assert("disconnected"@[0] == 'd');
    assert("failed"@[0] == 'f');
    assert("closed"@[0] == 'c' && "closed"@[1] == 'l');
    assert("new"@[0] == 'n');
    assert("connecting"@.len() == 10);
    assert("connecting"@[0] == 'c' && "connecting"@[9] == 'g' && "connected"@.len() == 9);
}

/// ICE gathering progress, named as libdatachannel names it.
#[derive(Clone, Copy, Debug, PartialEq, Eq, Structural)]
pub enum GatheringState {
    New,
    InProgress,
    Complete,
}

/// The gathering state the browser's `iceGatheringState` names.
pub open spec fn gathering_state_named(name: Seq<char>) -> GatheringState {
    if name == "new"@ {
        GatheringState::New
    } else if name == "gathering"@ {
        GatheringState::InProgress
    } else {
        GatheringState::Complete
    }
}

/// The gathering state the browser's `iceGatheringState` names.
pub fn gathering_state_from_web(name: &str) -> (r: GatheringState)
    ensures
        r == gathering_state_named(name@),
{
    if str_eq(name, "new") {
        GatheringState::New
    } else if str_eq(name, "gathering") {
        GatheringState::InProgress
    } else {
        GatheringState::Complete
    }
}

/// The browser's gathering states map onto libdatachannel's by name:
/// `new` to `New`, `gathering` to `InProgress`, `complete` to `Complete`.
pub proof fn lemma_gathering_state_names()
    ensures
        gathering_state_named("new"@) == GatheringState::New,
        gathering_state_named("gathering"@) == GatheringState::InProgress,
        gathering_state_named("complete"@) == GatheringState::Complete,
{
    reveal_strlit("new");
    reveal_strlit("gathering");
    reveal_strlit("complete");
    assert("new"@[0] == 'n' && "gathering"@[0] == 'g' && "complete"@[0] == 'c');
}

#[derive(Clone, Copy, Debug, PartialEq, Eq, Structural)]
pub enum TransportPolicy {
    All,
    Relay,
}

impl Default for TransportPolicy {
    fn default() -> (r: TransportPolicy)
        ensures
            r == TransportPolicy::All,
    {
        TransportPolicy::All
    }
}

/// The WebRTC name of a transport policy.
pub open spec fn transport_policy_name(p: TransportPolicy) -> Seq<char> {
    match p {
        TransportPolicy::All => "all"@,
        TransportPolicy::Relay => "relay"@,
    }
}

/// The transport policies go by their WebRTC names, which differ.
pub proof fn lemma_transport_policy_names()
    ensures
        transport_policy_name(TransportPolicy::All) == "all"@,
        transport_policy_name(TransportPolicy::Relay) == "relay"@,
        transport_policy_name(TransportPolicy::All) != transport_policy_name(TransportPolicy::Relay),
{
    reveal_strlit("all");
    reveal_strlit("relay");
    assert("all"@[0] == 'a' && "relay"@[0] == 'r');
}

impl TransportPolicy {
    /// The browser's name for this policy.
    pub fn to_web(self) -> (r: &'static str)
        ensures
            r@ == transport_policy_name(self),
    {
        match self {
            TransportPolicy::All => "all",
            TransportPolicy::Relay => "relay",
        }
    }
}

/// A STUN or TURN server.
#[derive(Clone, Debug, Default)]
pub struct IceServer {
    pub urls: Vec<String>,
    pub username: Option<String>,
    pub credential: Option<String>,
}

impl View for IceServer {
    type V = IceServerSpec;

    open spec fn view(&self) -> IceServerSpec {
        IceServerSpec {
            urls: self.urls.deep_view(),
            username: self.username.deep_view(),
            credential: self.credential.deep_view(),
        }
    }
}

/// Peer connection configuration: only what a browser can honour.
#[derive(Clone, Debug, Default)]
pub struct Configuration {
    pub ice_servers: Vec<IceServer>,
    pub ice_transport_policy: TransportPolicy,
}

/// Reliability settings for a data channel, in libdatachannel's shape.
#[derive(Clone, Copy, Debug, Default)]
pub struct Reliability {
    pub unordered: bool,
    pub unreliable: bool,
    pub max_packet_life_time: u32,
    pub max_retransmits: u32,
}

#[derive(Clone, Debug, Default)]
pub struct DataChannelOptions {
    pub reliability: Reliability,
    pub protocol: String,
    pub negotiated: bool,
    /// Pre-agreed stream id. Required when `negotiated` is set.
    pub stream: Option<u16>,
}

/// The browser's `RTCDataChannelInit`, as the values that are set on it:
/// a member left `None` is not set.
#[derive(Clone, Debug)]
pub struct DataChannelInit {
    pub ordered: bool,
    pub max_packet_life_time: Option<u16>,
    pub max_retransmits: Option<u16>,
    pub protocol: Option<String>,
    pub negotiated: bool,
    pub id: Option<u16>,
}

/// What the browser is asked for, given libdatachannel-shaped options.
///
/// The browser accepts at most one of the two limits, and only for an
/// unreliable channel; libdatachannel takes both and ignores them when
/// reliable. The packet lifetime wins when it is set, matching
/// libdatachannel's own precedence. Limits are narrowed to the browser's
/// 16 bits by truncation.
pub fn data_channel_init(options: &DataChannelOptions) -> (r: DataChannelInit)
    ensures
        r.ordered == !options.reliability.unordered,
        r.max_packet_life_time == (if options.reliability.unreliable
            && options.reliability.max_packet_life_time > 0 {
            Some(options.reliability.max_packet_life_time as u16)
        } else {
            None
        }),
        r.max_retransmits == (if options.reliability.unreliable
            && options.reliability.max_packet_life_time == 0 {
            Some(options.reliability.max_retransmits as u16)
        } else {
            None
        }),
        r.protocol.deep_view() == (if options.protocol@.len() == 0 {
            None
        } else {
            Some(options.protocol@)
        }),
        r.negotiated == options.negotiated,
        r.id == options.stream,
        r.max_packet_life_time is None || r.max_retransmits is None,
        !options.reliability.unreliable ==> r.max_packet_life_time is None
            && r.max_retransmits is None,
{
    let reliability = options.reliability;
    let mut max_packet_life_time: Option<u16> = None;
    let mut max_retransmits: Option<u16> = None;
    if reliability.unreliable {
        if reliability.max_packet_life_time > 0 {
            max_packet_life_time = Some(reliability.max_packet_life_time as u16);
        } else {
            max_retransmits = Some(reliability.max_retransmits as u16);
        }
    }
    let protocol = if options.protocol.as_str().is_empty() {
        None
    } else {
        Some(options.protocol.clone())
    };
    DataChannelInit {
        ordered: !reliability.unordered,
        max_packet_life_time,
        max_retransmits,
        protocol,
        negotiated: options.negotiated,
        id: options.stream,
    }
}

/// The type `set_local_description` goes for: the one asked for, or, when
/// none was, an answer while the other side's offer (or our provisional
/// answer) is in hand, and an offer otherwise — the same rule the
/// browser's implicit form uses.
pub open spec fn local_description_type_spec(requested: Option<SdpType>, signaling: Seq<char>) -> SdpType {
    match requested {
        Some(t) => t,
        None => if signaling == "have-remote-offer"@ || signaling == "have-local-pranswer"@ {
            SdpType::Answer
        } else {
            SdpType::Offer
        },
    }
}

/// The type `set_local_description` goes for, given the browser's
/// `signalingState` by name.
pub fn local_description_type(requested: Option<SdpType>, signaling: &str) -> (r: SdpType)
    ensures
        r == local_description_type_spec(requested, signaling@),
        requested matches Some(t) ==> r == t,
        requested is None ==> (r == SdpType::Answer || r == SdpType::Offer),
        requested is None ==> (r == SdpType::Answer <==> (signaling@ == "have-remote-offer"@
            || signaling@ == "have-local-pranswer"@)),
{
    match requested {
        Some(t) => t,
        None => if str_eq(signaling, "have-remote-offer") || str_eq(signaling, "have-local-pranswer") {
            SdpType::Answer
        } else {
            SdpType::Offer
        },
    }
}

/// A requested type is used as given, whatever the signaling state; only
/// when none is requested does the signaling state choose, and then it
/// chooses an answer exactly while the other side's offer (or our own
/// provisional answer) is in hand, and an offer otherwise.
pub proof fn lemma_requested_type_is_kept(requested: Option<SdpType>, signaling: Seq<char>)
    ensures
        requested matches Some(t) ==> local_description_type_spec(requested, signaling) == t,
        requested is None ==> (local_description_type_spec(requested, signaling)
            == SdpType::Answer <==> (signaling == "have-remote-offer"@ || signaling
            == "have-local-pranswer"@)),
        requested is None ==> (local_description_type_spec(requested, signaling)
            == SdpType::Answer || local_description_type_spec(requested, signaling)
            == SdpType::Offer),
{
}

/// A browser call whose Promise can reject.
#[derive(Clone, Copy, Debug, PartialEq, Eq, Structural)]
pub enum FailedStep {
    CreateAnswer,
    CreateOffer,
    SetLocalDescription,
    SetRemoteDescription,
    AddIceCandidate,
}

/// The browser's name for a call.
pub open spec fn failed_step_name(step: FailedStep) -> Seq<char> {
    match step {
        FailedStep::CreateAnswer => "createAnswer"@,
        FailedStep::CreateOffer => "createOffer"@,
        FailedStep::SetLocalDescription => "setLocalDescription"@,
        FailedStep::SetRemoteDescription => "setRemoteDescription"@,
        FailedStep::AddIceCandidate => "addIceCandidate"@,
    }
}

/// Each rejectable call goes by the browser's method name.
pub proof fn lemma_failed_step_names()
    ensures
        failed_step_name(FailedStep::CreateAnswer) == "createAnswer"@,
        failed_step_name(FailedStep::CreateOffer) == "createOffer"@,
        failed_step_name(FailedStep::SetLocalDescription) == "setLocalDescription"@,
        failed_step_name(FailedStep::SetRemoteDescription) == "setRemoteDescription"@,
        failed_step_name(FailedStep::AddIceCandidate) == "addIceCandidate"@,
{
}

impl FailedStep {
    /// The browser's name for this call.
    pub fn name(self) -> (r: &'static str)
        ensures
            r@ == failed_step_name(self),
    {
        match self {
            FailedStep::CreateAnswer => "createAnswer",
            FailedStep::CreateOffer => "createOffer",
            FailedStep::SetLocalDescription => "setLocalDescription",
            FailedStep::SetRemoteDescription => "setRemoteDescription",
            FailedStep::AddIceCandidate => "addIceCandidate",
        }
    }
}

/// What a rejected Promise is reported as. There is nowhere to return it
/// to, so it is logged with this line and the connection is driven to
/// [`State::Failed`] — which is what a failed description or candidate
/// exchange amounts to.
pub fn failure_report(step: FailedStep, error: &Error) -> (r: (String, State))
    ensures
        r.0@ == failed_step_name(step) + " failed: "@ + error@,
        r.1 == State::Failed,
{
    let mut line = String::from_str(step.name());
    line.append(" failed: ");
    line.append(error.message());
    (line, State::Failed)
}

/// Where a `set_local_description` stands, and the type it is setting.
#[derive(Clone, Copy, Debug, PartialEq, Eq, Structural)]
pub enum LocalDescriptionTask {
    /// Waiting for the browser to create the description to be set as
    /// this type.
    Creating(SdpType),
    /// Waiting for the browser to take the local description of this type.
    Setting(SdpType),
    /// Waiting for the local description of this type to be read back.
    Reading(SdpType),
    Finished,
}

impl LocalDescriptionTask {
    /// How many browser answers the task can still wait for.
    pub open spec fn remaining(self) -> nat {
        match self {
            LocalDescriptionTask::Creating(_) => 3,
            LocalDescriptionTask::Setting(_) => 2,
            LocalDescriptionTask::Reading(_) => 1,
            LocalDescriptionTask::Finished => 0,
        }
    }
}

/// What the driver does next for a `set_local_description`.
#[derive(Debug)]
pub enum LocalDescriptionAction {
    CreateOffer,
    CreateAnswer,
    /// Set a rollback description: there is nothing to create.
    SetRollback,
    /// Set the SDP the browser just created, as this type: a provisional
    /// answer is created as an answer and set as a pranswer.
    SetCreated(SdpType),
    ReadLocal,
    /// Hand the local description to the caller's callback.
    Report { sdp: String, type_: SdpType },
    /// Report the rejection (see [`failure_report`]).
    Fail(FailedStep),
    Stop,
}

/// What the browser answered.
#[derive(Debug)]
pub enum LocalDescriptionEvent {
    /// The create call settled: fulfilled or rejected.
    Created(bool),
    /// `setLocalDescription` settled: fulfilled or rejected.
    LocalSet(bool),
    /// The local description the browser now holds, if any.
    LocalRead(Option<RawDescription>),
}

impl LocalDescriptionTask {
    /// Begin setting the local description, generating it as
    /// libdatachannel does: an offer or an answer is created first, a
    /// provisional answer is created as an answer, and a rollback has
    /// nothing to create.
    pub fn start(requested: Option<SdpType>, signaling: &str) -> (r: (
        LocalDescriptionTask,
        LocalDescriptionAction,
    ))
        ensures
            ({
                let t = local_description_type_spec(requested, signaling@);
                &&& t == SdpType::Rollback ==> r.0 == LocalDescriptionTask::Setting(t)
                    && r.1 is SetRollback
                &&& t == SdpType::Offer ==> r.0 == LocalDescriptionTask::Creating(t)
                    && r.1 is CreateOffer
                &&& (t == SdpType::Answer || t == SdpType::Pranswer) ==> r.0
                    == LocalDescriptionTask::Creating(t) && r.1 is CreateAnswer
            }),
    {
        let t = local_description_type(requested, signaling);
        match t {
            SdpType::Rollback => (LocalDescriptionTask::Setting(t), LocalDescriptionAction::SetRollback),
            SdpType::Offer => (LocalDescriptionTask::Creating(t), LocalDescriptionAction::CreateOffer),
            SdpType::Answer | SdpType::Pranswer => (
                LocalDescriptionTask::Creating(t),
                LocalDescriptionAction::CreateAnswer,
            ),
        }
    }

    /// Take the browser's answer and decide what comes next. Every step
    /// brings the task closer to its end, and a rejection ends it with a
    /// failure. The new SDP is set under the type being set. A rollback
    /// reports nothing, as in libdatachannel. Otherwise the callback hears
    /// of the local description the browser then holds, under its own
    /// type, whenever it holds one of a known type.
    pub fn step(self, event: LocalDescriptionEvent) -> (r: (
        LocalDescriptionTask,
        LocalDescriptionAction,
    ))
        ensures
            match (self, event) {
                (LocalDescriptionTask::Creating(t), LocalDescriptionEvent::Created(true)) => r.0
                    == LocalDescriptionTask::Setting(t) && (r.1 matches LocalDescriptionAction::SetCreated(
                    u,
                ) && u == t),
                (LocalDescriptionTask::Creating(t), LocalDescriptionEvent::Created(false)) => r.0
                    == LocalDescriptionTask::Finished && (r.1 matches LocalDescriptionAction::Fail(s)
                    && s == (if t == SdpType::Offer {
                    FailedStep::CreateOffer
                } else {
                    FailedStep::CreateAnswer
                })),
                (LocalDescriptionTask::Setting(t), LocalDescriptionEvent::LocalSet(true)) => if t
                    == SdpType::Rollback {
                    r.0 == LocalDescriptionTask::Finished && r.1 is Stop
                } else {
                    r.0 == LocalDescriptionTask::Reading(t) && r.1 is ReadLocal
                },
                (LocalDescriptionTask::Setting(_), LocalDescriptionEvent::LocalSet(false)) => r.0
                    == LocalDescriptionTask::Finished && (r.1 matches LocalDescriptionAction::Fail(s)
                    && s == FailedStep::SetLocalDescription),
                (LocalDescriptionTask::Reading(t), LocalDescriptionEvent::LocalRead(d)) => r.0
                    == LocalDescriptionTask::Finished && match description_outcome(
                    raw_description_view(d),
                ) {
                    Ok((u, sdp)) => if t != SdpType::Rollback {
                        r.1 matches LocalDescriptionAction::Report { sdp: s, type_ } && s@ == sdp
                            && type_ == u
                    } else {
                        r.1 is Stop
                    },
                    Err(_) => r.1 is Stop,
                },
                _ => r.0 == LocalDescriptionTask::Finished && r.1 is Stop,
            },
            self != LocalDescriptionTask::Finished ==> r.0.remaining() < self.remaining(),
            self == LocalDescriptionTask::Finished ==> r.1 is Stop,
            self == LocalDescriptionTask::Setting(SdpType::Rollback)
                || self == LocalDescriptionTask::Reading(SdpType::Rollback) ==> !(r.1 is Report),
            r.1 is Report ==> self is Reading,
    {
        match (self, event) {
            (LocalDescriptionTask::Creating(t), LocalDescriptionEvent::Created(ok)) => {
                if ok {
                    (LocalDescriptionTask::Setting(t), LocalDescriptionAction::SetCreated(t))
                } else {
                    let step = match t {
                        SdpType::Offer => FailedStep::CreateOffer,
                        _ => FailedStep::CreateAnswer,
                    };
                    (LocalDescriptionTask::Finished, LocalDescriptionAction::Fail(step))
                }
            },
            (LocalDescriptionTask::Setting(t), LocalDescriptionEvent::LocalSet(ok)) => {
                if !ok {
                    (
                        LocalDescriptionTask::Finished,
                        LocalDescriptionAction::Fail(FailedStep::SetLocalDescription),
                    )
                } else if t == SdpType::Rollback {
                    (LocalDescriptionTask::Finished, LocalDescriptionAction::Stop)
                } else {
                    (LocalDescriptionTask::Reading(t), LocalDescriptionAction::ReadLocal)
                }
            },
            (LocalDescriptionTask::Reading(t), LocalDescriptionEvent::LocalRead(d)) => {
                match description(d) {
                    Ok(desc) => {
                        if t != SdpType::Rollback {
                            (
                                LocalDescriptionTask::Finished,
                                LocalDescriptionAction::Report { sdp: desc.sdp, type_: desc.type_ },
                            )
                        } else {
                            (LocalDescriptionTask::Finished, LocalDescriptionAction::Stop)
                        }
                    },
                    Err(_) => (LocalDescriptionTask::Finished, LocalDescriptionAction::Stop),
                }
            },
            _ => (LocalDescriptionTask::Finished, LocalDescriptionAction::Stop),
        }
    }
}

/// A remote candidate as the browser's `RTCIceCandidateInit` takes it.
///
/// libdatachannel takes the candidate string alone. The browser refuses a
/// candidate that names neither its media section's id nor its index, so
/// the candidate is placed in the first media section, which is where a
/// data-channel-only session keeps its single `application` section.
#[derive(Clone, Debug)]
pub struct CandidateInit {
    pub candidate: String,
    pub sdp_m_line_index: u16,
}

/// The candidate handed to the browser: an empty string means
/// end-of-candidates, which the browser spells as no candidate at all.
pub fn remote_candidate(cand: &str) -> (r: Option<CandidateInit>)
    ensures
        cand@.len() == 0 ==> r is None,
        cand@.len() != 0 ==> (r matches Some(c) && c.candidate@ == cand@ && c.sdp_m_line_index
            == 0),
{
    if cand.is_empty() {
        None
    } else {
        Some(CandidateInit { candidate: cand.to_owned(), sdp_m_line_index: 0 })
    }
}

/// The candidate string reported for a gathered candidate: the browser's
/// null candidate marks the end of gathering, which libdatachannel
/// signals with an empty string.
pub fn local_candidate(candidate: Option<String>) -> (r: String)
    ensures
        r@ == match candidate {
            Some(c) => c@,
            None => Seq::<char>::empty(),
        },
{
    match candidate {
        Some(c) => c,
        None => String::new(),
    }
}

/// Whether a data channel whose `readyState` is named so is open.
pub fn channel_is_open(ready_state: &str) -> (r: bool)
    ensures
        r == (ready_state@ == "open"@),
{
    str_eq(ready_state, "open")
}

/// Whether a data channel whose `readyState` is named so is closed.
pub fn channel_is_closed(ready_state: &str) -> (r: bool)
    ensures
        r == (ready_state@ == "closed"@),
{
    str_eq(ready_state, "closed")
}

/// The browser's `bufferedAmountLowThreshold` for an amount: its 32 bits,
/// by truncation.
pub fn buffered_amount_low_threshold(amount: usize) -> (r: u32)
    ensures
        r == amount as u32,
        amount <= u32::MAX ==> r == amount,
{
    amount as u32
}

/// The message a data channel error reports: the event's own message
/// when it is an error event, and a generic one otherwise.
pub fn channel_error_message(event_message: Option<String>) -> (r: String)
    ensures
        r@ == match event_message {
            Some(m) => m@,
            None => "data channel error"@,
        },
{
    match event_message {
        Some(m) => m,
        None => String::from_str("data channel error"),
    }
}

} // verus!
