//! The decisions of the protocol engine: which encoding the autopilot
//! speaks, how the parameter table is fetched, cached, read and written, how
//! commands are repeated and acknowledged.
//!
//! Nothing here waits or sends. Each function takes what arrived on the bus
//! and says what follows from it; the caller owns the link and the clock.

use vstd::prelude::*;
use vstd::string::*;
use vstd::utf8::encode_utf8;
use crate::cache::{lookup, names_distinct, upsert, lemma_upsert, ParamCache};
use crate::error::{CoreError, Rejection};
use crate::frames::{
    CameraSettings, CommandLong, Heartbeat, MavHeader, MavMessage, Message, ParamRequestRead,
    ParamSet, CAMERA_SETTINGS_ID, MAV_AUTOPILOT_INVALID, MAV_CMD_PREFLIGHT_REBOOT_SHUTDOWN,
    MAV_CMD_REQUEST_MESSAGE, MAV_CMD_SCRIPTING, MAV_COMP_ID_AUTOPILOT1,
    MAV_PROTOCOL_CAPABILITY_PARAM_ENCODE_BYTEWISE, MAV_PROTOCOL_CAPABILITY_PARAM_ENCODE_C_CAST,
    MAV_PROTOCOL_CAPABILITY_PARAM_FLOAT, MAV_RESULT_ACCEPTED, MAV_STATE_STANDBY, MAV_TYPE_CAMERA,
    PARAM_INDEX_UNRELATED, SCRIPTING_CMD_STOP_AND_RESTART,
};
use crate::parameters::{
    bytes_text, ccast_exact, id_of_bytes, lemma_round_trip, name_bytes, restamped, wire_value,
    wire_word, ParamEncodingType, ParamType, ParamValueData, Parameter, ParameterView,
};
use crate::text::same_text;
use crate::wire::{single_from_u32, single_of_nat, SINGLE_ONE};

verus! {

/// How many times a read, a write confirmation or a command is tried.
pub const MAX_TRIES: u8 = 5;

/// Seconds to wait for a parameter frame or a command acknowledgement.
pub const REPLY_TIMEOUT_SECS: u64 = 5;

/// Seconds to wait for the autopilot's version and capabilities.
pub const VERSION_TIMEOUT_SECS: u64 = 10;

/// Seconds within which an outgoing frame must be delivered.
pub const SEND_TIMEOUT_SECS: u64 = 10;

/// Seconds to pause before the next try, and between two heartbeats.
pub const PAUSE_SECS: u64 = 1;

/// The number of messages that the bus keeps for a slow consumer.
pub const BUS_CAPACITY: usize = 10000;

/// Whether the capability word has the given single bit set.
pub open spec fn has_capability(capabilities: u64, bit: u64) -> bool
    recommends
        bit > 0,
{
    (capabilities / bit) % 2 == 1
}

/// The encoding that a capability word asks for: bit-for-bit where it is
/// offered, else numeric cast where that (or its older name, plain float) is
/// offered, else none.
pub open spec fn encoding_of(capabilities: u64) -> ParamEncodingType {
    if has_capability(capabilities, MAV_PROTOCOL_CAPABILITY_PARAM_ENCODE_BYTEWISE) {
        ParamEncodingType::ByteWise
    } else if has_capability(capabilities, MAV_PROTOCOL_CAPABILITY_PARAM_FLOAT) || has_capability(
        capabilities,
        MAV_PROTOCOL_CAPABILITY_PARAM_ENCODE_C_CAST,
    ) {
        ParamEncodingType::CCast
    } else {
        ParamEncodingType::Unsupported
    }
}

/// What is worth a log line about the capabilities that were found.
#[derive(Debug, Clone, Copy, PartialEq, Eq, Structural)]
pub enum EncodingNote {
    /// One encoding is offered.
    Plain,
    /// Both encodings are offered: bit-for-bit was chosen, with a warning.
    BothOffered,
    /// No encoding is offered: reads and writes will fail.
    NoneOffered,
}

/// The note that goes with a capability word.
pub open spec fn note_of(capabilities: u64) -> EncodingNote {
    let c_cast = has_capability(capabilities, MAV_PROTOCOL_CAPABILITY_PARAM_FLOAT)
        || has_capability(capabilities, MAV_PROTOCOL_CAPABILITY_PARAM_ENCODE_C_CAST);
    let bytewise = has_capability(capabilities, MAV_PROTOCOL_CAPABILITY_PARAM_ENCODE_BYTEWISE);
    if c_cast && bytewise {
        EncodingNote::BothOffered
    } else if !c_cast && !bytewise {
        EncodingNote::NoneOffered
    } else {
        EncodingNote::Plain
    }
}

fn capability(capabilities: u64, bit: u64) -> (r: bool)
    requires
        bit > 0,
    ensures
        r == has_capability(capabilities, bit),
{
    (capabilities / bit) % 2 == 1
}

/// What one frame means for the full fetch of the parameter table.
#[derive(Debug, Clone, Copy, PartialEq, Eq, Structural)]
pub enum DumpStep {
    /// The frame is nothing to store: not a parameter frame, an unrelated
    /// one, or one that cannot be decoded.
    Skipped,
    /// The parameter was stored; more are expected.
    Stored,
    /// The last index arrived but parameters are missing: ask for the list
    /// again.
    Restart,
    /// The last index arrived and the table is complete.
    Complete,
}

/// The progress of a full fetch of the parameter table.
pub struct ParamDump {
    /// The number of related parameter frames seen since the last request.
    pub counter: u32,
    /// The indices that arrived out of turn, over all requests.
    pub refetch: Vec<u16>,
    /// Whether every related frame since the last request arrived in turn.
    pub in_turn: bool,
    /// The parameters gathered so far.
    pub parameters: ParamCache,
    /// The indices of the related frames seen since the last request.
    pub seen: Ghost<Seq<u16>>,
}

/// The frame is a parameter frame that came from the link and belongs to a
/// list request.
pub open spec fn related_frame(msg: Message) -> Option<ParamValueData> {
    match msg {
        Message::Received((_, MavMessage::PARAM_VALUE(data))) => if data.param_index
            == PARAM_INDEX_UNRELATED {
            None
        } else {
            Some(data)
        },
        _ => None,
    }
}

/// The parameter frame in a message that came from the link, if it is one.
pub open spec fn param_frame(msg: Message) -> Option<ParamValueData> {
    match msg {
        Message::Received((_, MavMessage::PARAM_VALUE(data))) => Some(data),
        _ => None,
    }
}

/// Whether a parameter frame can be decoded under the encoding.
pub open spec fn decodable(data: ParamValueData, encoding: ParamEncodingType) -> bool {
    encoding != ParamEncodingType::Unsupported && !data.param_type.spec_is_wide()
}

/// The parameter that a decodable frame describes.
pub open spec fn parameter_of(data: ParamValueData, encoding: ParamEncodingType)
    -> ParameterView {
    ParameterView {
        name: bytes_text(name_bytes(data.param_id@)),
        value: wire_value(data.param_value, data.param_type, encoding),
    }
}

fn decode_frame(data: &ParamValueData, encoding: ParamEncodingType) -> (r: Option<Parameter>)
    ensures
        r is Some <==> decodable(*data, encoding),
        r matches Some(p) ==> p@ == parameter_of(*data, encoding),
{
    if data.param_type.is_wide() {
        return None;
    }
    match Parameter::try_new(data, encoding) {
        Ok(p) => Some(p),
        Err(_) => None,
    }
}

fn received_param(msg: &Message) -> (r: Option<ParamValueData>)
    ensures
        r == param_frame(*msg),
{
    match msg {
        Message::Received((_, MavMessage::PARAM_VALUE(data))) => Some(*data),
        _ => None,
    }
}

/// The count of related frames after a bus message: one more for a related
/// frame, as far as the counter goes.
pub open spec fn counter_after(counter: u32, msg: Message) -> u32 {
    if related_frame(msg) is Some && counter < u32::MAX {
        (counter + 1) as u32
    } else {
        counter
    }
}

/// The indices noted for refetching after a bus message: with the frame's
/// index, where a related frame arrived out of turn.
pub open spec fn refetch_after(refetch: Seq<u16>, counter: u32, msg: Message) -> Seq<u16> {
    match related_frame(msg) {
        Some(data) => if data.param_index + 1 != counter_after(counter, msg) {
            refetch.push(data.param_index)
        } else {
            refetch
        },
        None => refetch,
    }
}

/// Whether every related frame since the last request arrived in turn,
/// after a bus message.
pub open spec fn in_turn_after(in_turn: bool, counter: u32, msg: Message) -> bool {
    match related_frame(msg) {
        Some(data) => in_turn && data.param_index + 1 == counter_after(counter, msg),
        None => in_turn,
    }
}

/// The indices of the related frames since the last request, after a bus
/// message.
pub open spec fn seen_after(seen: Seq<u16>, msg: Message) -> Seq<u16> {
    match related_frame(msg) {
        Some(data) => seen.push(data.param_index),
        None => seen,
    }
}

/// The table of a fetch after a bus message: with the frame's parameter
/// stored, where the message is a related frame that can be decoded.
pub open spec fn gathered(table: Seq<ParameterView>, msg: Message, encoding: ParamEncodingType)
    -> Seq<ParameterView> {
    match related_frame(msg) {
        Some(data) => if decodable(data, encoding) {
            upsert(table, parameter_of(data, encoding))
        } else {
            table
        },
        None => table,
    }
}

/// What a bus message means for a fetch that has gathered `table`.
pub open spec fn dump_step(table: Seq<ParameterView>, msg: Message, encoding: ParamEncodingType)
    -> DumpStep {
    match related_frame(msg) {
        None => DumpStep::Skipped,
        Some(data) => if !decodable(data, encoding) {
            DumpStep::Skipped
        } else if data.param_index + 1 != data.param_count {
            DumpStep::Stored
        } else if gathered(table, msg, encoding).len() == data.param_count {
            DumpStep::Complete
        } else {
            DumpStep::Restart
        },
    }
}

impl ParamDump {
    /// Well-formedness: the counter counts the frames seen since the last
    /// request, and as long as every one of them arrived in turn they
    /// carried the indices 0, 1, 2 and so on.
    pub open spec fn wf(&self) -> bool {
        &&& self.parameters.wf()
        &&& self.counter == self.seen@.len() || self.counter == u32::MAX
        &&& self.in_turn ==> self.counter == self.seen@.len() && forall|k: int|
            0 <= k < self.seen@.len() ==> self.seen@[k] == k
    }

    /// A fetch that has seen nothing yet.
    pub fn new() -> (d: ParamDump)
        ensures
            d.wf(),
            d.counter == 0,
            d.refetch@.len() == 0,
            d.in_turn,
            d.parameters@.len() == 0,
            d.seen@.len() == 0,
    {
        ParamDump {
            counter: 0,
            refetch: Vec::new(),
            in_turn: true,
            parameters: ParamCache::new(),
            seen: Ghost(Seq::empty()),
        }
    }

    /// Starts the count anew for a repeated list request. What was gathered
    /// and what was found missing stays.
    pub fn restart(&mut self)
        requires
            old(self).wf(),
        ensures
            final(self).wf(),
            final(self).counter == 0,
            final(self).in_turn,
            final(self).seen@.len() == 0,
            final(self).parameters@ == old(self).parameters@,
            final(self).refetch@ == old(self).refetch@,
    {
        self.counter = 0;
        self.in_turn = true;
        self.seen = Ghost(Seq::empty());
    }

    /// Takes one message from the bus into the fetch.
    ///
    /// A related parameter frame is counted; its index is noted for
    /// refetching where it is not the next in turn; the parameter is stored
    /// where the frame can be decoded. The fetch is complete when the frame
    /// with the last index arrives and the table holds as many parameters as
    /// the autopilot announced.
    pub fn accept(&mut self, msg: &Message, encoding: ParamEncodingType) -> (step: DumpStep)
        requires
            old(self).wf(),
        ensures
            final(self).wf(),
            final(self).counter == counter_after(old(self).counter, *msg),
            final(self).refetch@ == refetch_after(old(self).refetch@, old(self).counter, *msg),
            final(self).in_turn == in_turn_after(old(self).in_turn, old(self).counter, *msg),
            final(self).seen@ == seen_after(old(self).seen@, *msg),
            final(self).parameters@ == gathered(old(self).parameters@, *msg, encoding),
            step == dump_step(old(self).parameters@, *msg, encoding),
            step == DumpStep::Complete ==> (related_frame(*msg) matches Some(data) && {
                &&& final(self).parameters@.len() == data.param_count
                &&& final(self).in_turn ==> final(self).seen@ =~= Seq::new(
                    data.param_count as nat,
                    |k: int| k as u16,
                )
            }),
    {
        let data = match received_param(msg) {
            Some(data) => data,
            None => {
                return DumpStep::Skipped;
            },
        };
        if data.param_index == PARAM_INDEX_UNRELATED {
            return DumpStep::Skipped;
        }
        if self.counter < u32::MAX {
            self.counter = self.counter + 1;
        }
        self.seen = Ghost(self.seen@.push(data.param_index));
        if data.param_index as u32 + 1 != self.counter {
            self.refetch.push(data.param_index);
            self.in_turn = false;
        }
        let parameter = match decode_frame(&data, encoding) {
            Some(parameter) => parameter,
            None => {
                return DumpStep::Skipped;
            },
        };
        self.parameters.insert(parameter);
        if data.param_index as u32 + 1 == data.param_count as u32 {
            if self.parameters.len() == data.param_count as usize {
                return DumpStep::Complete;
            }
            return DumpStep::Restart;
        }
        DumpStep::Stored
    }
}

/// What a parameter frame did to the cache.
#[derive(Debug, Clone, Copy, PartialEq, Eq, Structural)]
pub enum SyncOutcome {
    /// The message is no parameter frame from the link.
    Ignored,
    /// The frame cannot be decoded and was skipped.
    Undecodable,
    /// A parameter of a new name was added.
    Added,
    /// A known parameter was stored again. `changed` says whether the value
    /// differs from the cached one, `report` whether the change is worth a
    /// log line.
    Updated { changed: bool, report: bool },
}

/// The name of a parameter that changes all the time and is not reported.
pub open spec fn noisy_name(name: Seq<char>) -> bool {
    name == "STAT_RUNTIME"@
}

/// What one try of a read, or one wait for a confirmation, came to.
#[derive(Debug, PartialEq, Eq)]
pub enum WaitOutcome {
    /// The request could not be put on the bus.
    SendFailed,
    /// The wait ended with the parameter.
    Found(Parameter),
    /// The wait ended on a frame that could not be decoded, or the bus
    /// failed; the error says which.
    Failed(CoreError),
    /// Nothing arrived in time.
    TimedOut,
}

/// What follows from one try.
#[derive(Debug, PartialEq, Eq)]
pub enum Verdict {
    /// The operation is over and this is its result.
    Done(Parameter),
    /// Try again, after a pause where `pause` is set.
    Again { pause: bool },
    /// All tries are used up.
    GiveUp(CoreError),
}

/// What one bus message means for someone who waits for a parameter.
#[derive(Debug, PartialEq, Eq)]
pub enum WaitStep {
    /// Not the awaited frame: keep waiting.
    Skip,
    /// The awaited parameter.
    Found(Parameter),
    /// A parameter frame that cannot be decoded: the wait fails.
    Failed(CoreError),
}

/// What one bus message means for someone who waits for a command's
/// acknowledgement.
#[derive(Debug, Clone, Copy, PartialEq, Eq, Structural)]
pub enum AckStep {
    /// Not the awaited acknowledgement: keep waiting.
    Skip,
    /// The autopilot accepted the command.
    Accepted,
    /// The autopilot answered with another result.
    Rejected(u8),
}

/// The acknowledgement of `command` by the autopilot of `target_system` in a
/// bus message, if it is one.
pub open spec fn ack_of(msg: Message, target_system: u8, command: u16) -> Option<u8> {
    match msg {
        Message::Received((header, MavMessage::COMMAND_ACK(ack))) => if header.system_id
            == target_system && header.component_id == MAV_COMP_ID_AUTOPILOT1 && ack.command
            == command {
            Some(ack.result)
        } else {
            None
        },
        _ => None,
    }
}

/// The camera settings sent by the autopilot of `target_system` in a bus
/// message, if it holds them.
pub open spec fn camera_settings_of(msg: Message, target_system: u8) -> Option<CameraSettings> {
    match msg {
        Message::Received((header, MavMessage::CAMERA_SETTINGS(settings))) => if header.system_id
            == target_system && header.component_id == MAV_COMP_ID_AUTOPILOT1 {
            Some(settings)
        } else {
            None
        },
        _ => None,
    }
}

/// A command with the given id and first argument for the autopilot of the
/// given system; the other arguments are zero.
pub open spec fn command_for(target_system: u8, command: u16, param1: u32) -> CommandLong {
    CommandLong {
        target_system,
        target_component: MAV_COMP_ID_AUTOPILOT1,
        command,
        confirmation: 0,
        param1,
        param2: 0,
        param3: 0,
        param4: 0,
        param5: 0,
        param6: 0,
        param7: 0,
    }
}

/// A command as it is sent and repeated: each try is the command as it was
/// given but for the confirmation, which counts the tries before it.
#[derive(Debug)]
pub struct CommandRun {
    /// The command, with the confirmation of the next try.
    pub command: CommandLong,
    /// The system whose autopilot has to acknowledge the command.
    pub system_id: u8,
}

impl CommandRun {
    /// The run of a command that was not sent yet, to be acknowledged by
    /// the autopilot of the given system.
    pub fn new(command: CommandLong, system_id: u8) -> (run: CommandRun)
        ensures
            run.command == command,
            run.system_id == system_id,
    {
        CommandRun { command, system_id }
    }

    /// The frame of the next try, or the timeout once the tries are used up.
    /// The confirmation rises by one with each try and there is no try with
    /// a confirmation of five or more: a command given with confirmation 0
    /// is tried five times.
    pub fn next_attempt(&mut self) -> (r: Result<CommandLong, CoreError>)
        ensures
            old(self).command.confirmation < MAX_TRIES ==> r == Ok::<CommandLong, CoreError>(
                old(self).command,
            ) && final(self).command == (CommandLong {
                confirmation: (old(self).command.confirmation + 1) as u8,
                ..old(self).command
            }),
            final(self).system_id == old(self).system_id,
            old(self).command.confirmation >= MAX_TRIES ==> r == Err::<CommandLong, CoreError>(
                CoreError::Timeout,
            ) && final(self).command == old(self).command,
    {
        if self.command.confirmation < MAX_TRIES {
            let frame = self.command;
            self.command.confirmation = self.command.confirmation + 1;
            Ok(frame)
        } else {
            Err(CoreError::Timeout)
        }
    }

    /// What a bus message means for the command that is waiting.
    pub fn classify(&self, msg: &Message) -> (step: AckStep)
        ensures
            step == (match ack_of(*msg, self.system_id, self.command.command) {
                None => AckStep::Skip,
                Some(result) => if result == MAV_RESULT_ACCEPTED {
                    AckStep::Accepted
                } else {
                    AckStep::Rejected(result)
                },
            }),
    {
        match msg {
            Message::Received((header, MavMessage::COMMAND_ACK(ack))) => {
                if header.system_id == self.system_id && header.component_id
                    == MAV_COMP_ID_AUTOPILOT1 && ack.command == self.command.command {
                    if ack.result == MAV_RESULT_ACCEPTED {
                        AckStep::Accepted
                    } else {
                        AckStep::Rejected(ack.result)
                    }
                } else {
                    AckStep::Skip
                }
            },
            _ => AckStep::Skip,
        }
    }

    /// The result of the command once an acknowledgement was classified:
    /// success for an accepted command, a rejection with the autopilot's
    /// result for any other answer. `Skip` is no answer and ends nothing.
    pub fn conclude(&self, step: AckStep) -> (r: Option<Result<(), CoreError>>)
        ensures
            r == (match step {
                AckStep::Skip => None::<Result<(), CoreError>>,
                AckStep::Accepted => Some(Ok::<(), CoreError>(())),
                AckStep::Rejected(result) => Some(
                    Err::<(), CoreError>(
                        CoreError::Rejected(
                            Rejection::Command { command: self.command.command, result },
                        ),
                    ),
                ),
            }),
    {
        match step {
            AckStep::Skip => None,
            AckStep::Accepted => Some(Ok(())),
            AckStep::Rejected(result) => Some(
                Err(CoreError::Rejected(Rejection::Command { command: self.command.command, result })),
            ),
        }
    }
}

/// A read of a parameter, or the wait for the confirmation of a write, as
/// it is tried and tried again: the request and the number of tries that
/// are left.
#[derive(Debug)]
pub struct ParamRun {
    /// The request that every try sends.
    pub request: Message,
    /// The number of tries that may still be made.
    pub tries_left: u8,
}

impl ParamRun {
    /// The run of a request that was not sent yet: five tries are left.
    pub fn new(request: Message) -> (run: ParamRun)
        ensures
            run.request == request,
            run.tries_left == MAX_TRIES,
    {
        ParamRun { request, tries_left: MAX_TRIES }
    }

    /// The request of the next try, which uses one try up, or the timeout
    /// where no try is left. A run thus sends its request five times at
    /// most.
    pub fn next_attempt(&mut self) -> (r: Result<Message, CoreError>)
        ensures
            final(self).request == old(self).request,
            old(self).tries_left > 0 ==> r == Ok::<Message, CoreError>(old(self).request)
                && final(self).tries_left == old(self).tries_left - 1,
            old(self).tries_left == 0 ==> r == Err::<Message, CoreError>(CoreError::Timeout)
                && final(self).tries_left == 0,
    {
        if self.tries_left > 0 {
            self.tries_left = self.tries_left - 1;
            Ok(self.request)
        } else {
            Err(CoreError::Timeout)
        }
    }

    /// What follows from the try that was just made: the parameter ends the
    /// run; a failed send or a timeout is followed by a pause and the next
    /// try, a failed wait by the next try at once. Where that was the last
    /// try the run ends: in the error of the failed wait, and in a timeout
    /// after a failed send or a timeout.
    pub fn conclude(&self, outcome: WaitOutcome) -> (verdict: Verdict)
        ensures
            match outcome {
                WaitOutcome::Found(p) => verdict matches Verdict::Done(q) && q@ == p@,
                WaitOutcome::Failed(e) => if self.tries_left == 0 {
                    verdict == Verdict::GiveUp(e)
                } else {
                    verdict == (Verdict::Again { pause: false })
                },
                _ => if self.tries_left == 0 {
                    verdict == Verdict::GiveUp(CoreError::Timeout)
                } else {
                    verdict == (Verdict::Again { pause: true })
                },
            },
    {
        MavlinkComponent::get_param_inner(self.tries_left, outcome)
    }
}

/// How a read of a parameter begins.
#[derive(Debug)]
pub enum ReadStart {
    /// The cache has the parameter: the read is over.
    Cached(Parameter),
    /// The autopilot has to be asked: this run does it.
    Ask(ParamRun),
}

/// The protocol state of this component: who it is, which encoding the
/// autopilot speaks, and what is known of the autopilot's parameters.
pub struct MavlinkComponent {
    pub system_id: u8,
    pub component_id: u8,
    pub encoding: ParamEncodingType,
    pub parameters: ParamCache,
}

impl MavlinkComponent {
    /// A component that knows neither the encoding nor any parameter yet.
    pub fn new(system_id: u8, component_id: u8) -> (c: MavlinkComponent)
        ensures
            c.system_id == system_id,
            c.component_id == component_id,
            c.encoding == ParamEncodingType::Unsupported,
            c.parameters.wf(),
            c.parameters@.len() == 0,
    {
        MavlinkComponent {
            system_id,
            component_id,
            encoding: ParamEncodingType::Unsupported,
            parameters: ParamCache::new(),
        }
    }

    /// The header of the frames that this component sends.
    pub open spec fn spec_header(&self) -> MavHeader {
        MavHeader { system_id: self.system_id, component_id: self.component_id, sequence: 0 }
    }

    /// The header of the frames that this component sends.
    #[verifier::when_used_as_spec(spec_header)]
    pub fn header(&self) -> (h: MavHeader)
        ensures
            h == self.spec_header(),
    {
        MavHeader { system_id: self.system_id, component_id: self.component_id, sequence: 0 }
    }

    /// The encoding in use.
    pub fn encoding(&self) -> (e: ParamEncodingType)
        ensures
            e == self.encoding,
    {
        self.encoding
    }

    /// The request for the autopilot's version and capabilities.
    pub fn version_request(&self) -> (m: Message)
        ensures
            m == Message::ToBeSent(
                (
                    self.spec_header(),
                    MavMessage::AUTOPILOT_VERSION_REQUEST {
                        target_system: self.system_id,
                        target_component: MAV_COMP_ID_AUTOPILOT1,
                    },
                ),
            ),
    {
        Message::ToBeSent(
            (
                self.header(),
                MavMessage::AUTOPILOT_VERSION_REQUEST {
                    target_system: self.system_id,
                    target_component: MAV_COMP_ID_AUTOPILOT1,
                },
            ),
        )
    }

    /// Fixes the encoding from a bus message, where that message is the
    /// autopilot's version: bit-for-bit where it is offered, else numeric
    /// cast, else none. Any other message changes nothing.
    pub fn configure_parameter_encoding(&mut self, msg: &Message) -> (r: Option<EncodingNote>)
        ensures
            final(self).system_id == old(self).system_id,
            final(self).component_id == old(self).component_id,
            final(self).parameters == old(self).parameters,
            match *msg {
                Message::Received((_, MavMessage::AUTOPILOT_VERSION { capabilities })) => {
                    &&& final(self).encoding == encoding_of(capabilities)
                    &&& r == Some(note_of(capabilities))
                },
                _ => final(self).encoding == old(self).encoding && r is None,
            },
    {
        match msg {
            Message::Received((_, MavMessage::AUTOPILOT_VERSION { capabilities })) => {
                let c_cast = capability(*capabilities, MAV_PROTOCOL_CAPABILITY_PARAM_FLOAT)
                    || capability(*capabilities, MAV_PROTOCOL_CAPABILITY_PARAM_ENCODE_C_CAST);
                let bytewise = capability(
                    *capabilities,
                    MAV_PROTOCOL_CAPABILITY_PARAM_ENCODE_BYTEWISE,
                );
                if c_cast && bytewise {
                    self.encoding = ParamEncodingType::ByteWise;
                    Some(EncodingNote::BothOffered)
                } else if c_cast {
                    self.encoding = ParamEncodingType::CCast;
                    Some(EncodingNote::Plain)
                } else if bytewise {
                    self.encoding = ParamEncodingType::ByteWise;
                    Some(EncodingNote::Plain)
                } else {
                    self.encoding = ParamEncodingType::Unsupported;
                    Some(EncodingNote::NoneOffered)
                }
            },
            _ => None,
        }
    }

    /// The request for the full parameter table.
    pub fn list_request(&self) -> (m: Message)
        ensures
            m == Message::ToBeSent(
                (
                    self.spec_header(),
                    MavMessage::PARAM_REQUEST_LIST {
                        target_system: self.system_id,
                        target_component: MAV_COMP_ID_AUTOPILOT1,
                    },
                ),
            ),
    {
        Message::ToBeSent(
            (
                self.header(),
                MavMessage::PARAM_REQUEST_LIST {
                    target_system: self.system_id,
                    target_component: MAV_COMP_ID_AUTOPILOT1,
                },
            ),
        )
    }

    /// Takes one bus message into a running full fetch, and makes the
    /// gathered table the cache once the fetch is complete: the cache then
    /// holds as many parameters as the autopilot announced, and where the
    /// frames since the last request all arrived in turn, they carried every
    /// index from 0 up to that number exactly once. Until then the cache
    /// stays as it is. On `Restart` the fetch's count starts anew and the
    /// list is to be requested again.
    pub fn update_all_params(&mut self, dump: &mut ParamDump, msg: &Message) -> (step: DumpStep)
        requires
            old(dump).wf(),
            old(self).parameters.wf(),
        ensures
            final(dump).wf(),
            final(self).parameters.wf(),
            final(self).system_id == old(self).system_id,
            final(self).component_id == old(self).component_id,
            final(self).encoding == old(self).encoding,
            step == dump_step(old(dump).parameters@, *msg, old(self).encoding),
            step == DumpStep::Complete ==> {
                &&& (related_frame(*msg) matches Some(data) && final(self).parameters@.len()
                    == data.param_count)
                &&& final(self).parameters@ == gathered(
                    old(dump).parameters@,
                    *msg,
                    old(self).encoding,
                )
                &&& final(dump).parameters@.len() == 0
            },
            step != DumpStep::Complete ==> {
                &&& final(self).parameters@ == old(self).parameters@
                &&& final(dump).parameters@ == gathered(
                    old(dump).parameters@,
                    *msg,
                    old(self).encoding,
                )
            },
            final(dump).refetch@ == refetch_after(old(dump).refetch@, old(dump).counter, *msg),
            final(dump).counter == (if step == DumpStep::Restart {
                0
            } else {
                counter_after(old(dump).counter, *msg)
            }),
            final(dump).in_turn == (step == DumpStep::Restart || in_turn_after(
                old(dump).in_turn,
                old(dump).counter,
                *msg,
            )),
            final(dump).seen@ =~= (if step == DumpStep::Restart {
                Seq::<u16>::empty()
            } else {
                seen_after(old(dump).seen@, *msg)
            }),
            step == DumpStep::Complete && final(dump).in_turn ==> (related_frame(
                *msg,
            ) matches Some(data) && final(dump).seen@ =~= Seq::new(
                data.param_count as nat,
                |k: int| k as u16,
            )),
    {
        let step = dump.accept(msg, self.encoding);
        match step {
            DumpStep::Complete => {
                let mut table = ParamCache::new();
                std::mem::swap(&mut table, &mut dump.parameters);
                self.parameters = table;
            },
            DumpStep::Restart => {
                dump.restart();
            },
            _ => {},
        }
        step
    }

    /// Merges a parameter frame from the bus into the cache: a new name is
    /// added at the end, a known name takes the new value in its place.
    /// Other messages, and frames that cannot be decoded, change nothing.
    pub fn params_sync_task(&mut self, msg: &Message) -> (outcome: SyncOutcome)
        requires
            old(self).parameters.wf(),
        ensures
            final(self).parameters.wf(),
            final(self).system_id == old(self).system_id,
            final(self).component_id == old(self).component_id,
            final(self).encoding == old(self).encoding,
            match param_frame(*msg) {
                None => outcome == SyncOutcome::Ignored && final(self).parameters@ == old(self).parameters@,
                Some(data) => if !decodable(data, old(self).encoding) {
                    outcome == SyncOutcome::Undecodable && final(self).parameters@ == old(self).parameters@
                } else {
                    let p = parameter_of(data, old(self).encoding);
                    &&& final(self).parameters@ == upsert(old(self).parameters@, p)
                    &&& lookup(final(self).parameters@, p.name) == Some(p)
                    &&& outcome == (match lookup(old(self).parameters@, p.name) {
                        None => SyncOutcome::Added,
                        Some(before) => SyncOutcome::Updated {
                            changed: before.value != p.value,
                            report: before.value != p.value && !noisy_name(p.name),
                        },
                    })
                },
            },
    {
        let data = match received_param(msg) {
            Some(data) => data,
            None => {
                return SyncOutcome::Ignored;
            },
        };
        let parameter = match decode_frame(&data, self.encoding) {
            Some(parameter) => parameter,
            None => {
                return SyncOutcome::Undecodable;
            },
        };
        proof {
            self.parameters.lemma_wf();
            lemma_upsert(self.parameters@, parameter@);
        }
        let quiet = same_text(parameter.name.as_str(), "STAT_RUNTIME");
        let value = parameter.value;
        match self.parameters.insert(parameter) {
            None => SyncOutcome::Added,
            Some(before) => {
                let changed = before.value != value;
                SyncOutcome::Updated { changed, report: changed && !quiet }
            },
        }
    }

    /// How a read begins: with the cached parameter where the cache may be
    /// used and has the name, and otherwise with the run that asks the
    /// autopilot, by name and with the index -1, five times at most.
    pub fn get_param(&self, param_name: &str, skip_cache: bool) -> (r: ReadStart)
        requires
            self.parameters.wf(),
        ensures
            match r {
                ReadStart::Cached(p) => !skip_cache && lookup(self.parameters@, param_name@)
                    == Some(p@),
                ReadStart::Ask(run) => {
                    &&& skip_cache || lookup(self.parameters@, param_name@) is None
                    &&& run.tries_left == MAX_TRIES
                    &&& run.request matches Message::ToBeSent(
                        (header, MavMessage::PARAM_REQUEST_READ(request)),
                    ) && {
                        &&& header == self.spec_header()
                        &&& request.target_system == self.system_id
                        &&& request.target_component == MAV_COMP_ID_AUTOPILOT1
                        &&& request.param_index == -1
                        &&& request.param_id@ == id_of_bytes(encode_utf8(param_name@))
                    }
                },
            },
    {
        let cached = if skip_cache {
            None
        } else {
            self.parameters.get(param_name)
        };
        match cached {
            Some(p) => ReadStart::Cached(p),
            None => ReadStart::Ask(ParamRun::new(self.read_request(param_name))),
        }
    }

    /// The request to read the named parameter: by name, with the index -1.
    pub fn read_request(&self, param_name: &str) -> (m: Message)
        ensures
            m matches Message::ToBeSent((header, MavMessage::PARAM_REQUEST_READ(request))) && {
                &&& header == self.spec_header()
                &&& request.target_system == self.system_id
                &&& request.target_component == MAV_COMP_ID_AUTOPILOT1
                &&& request.param_index == -1
                &&& request.param_id@ == id_of_bytes(encode_utf8(param_name@))
            },
    {
        Message::ToBeSent(
            (
                self.header(),
                MavMessage::PARAM_REQUEST_READ(
                    ParamRequestRead {
                        target_system: self.system_id,
                        target_component: MAV_COMP_ID_AUTOPILOT1,
                        param_id: Parameter::param_name_to_id(param_name),
                        param_index: -1,
                    },
                ),
            ),
        )
    }

    /// What follows from one try of a read or of a wait for a confirmation,
    /// with `tries_left` tries left after it: the parameter ends the
    /// operation; a failed send or a timeout is followed by a pause and the
    /// next try, a failed wait by the next try at once. Without a try left
    /// the operation ends: in the error of the failed wait, and in a timeout
    /// after a failed send or a timeout.
    pub fn get_param_inner(tries_left: u8, outcome: WaitOutcome) -> (verdict: Verdict)
        ensures
            match outcome {
                WaitOutcome::Found(p) => verdict matches Verdict::Done(q) && q@ == p@,
                WaitOutcome::Failed(e) => if tries_left == 0 {
                    verdict == Verdict::GiveUp(e)
                } else {
                    verdict == (Verdict::Again { pause: false })
                },
                _ => if tries_left == 0 {
                    verdict == Verdict::GiveUp(CoreError::Timeout)
                } else {
                    verdict == (Verdict::Again { pause: true })
                },
            },
    {
        match outcome {
            WaitOutcome::Found(p) => Verdict::Done(p),
            WaitOutcome::Failed(e) => if tries_left == 0 {
                Verdict::GiveUp(e)
            } else {
                Verdict::Again { pause: false }
            },
            _ => if tries_left == 0 {
                Verdict::GiveUp(CoreError::Timeout)
            } else {
                Verdict::Again { pause: true }
            },
        }
    }

    /// What a bus message means for a wait for the named parameter: a
    /// parameter frame from the link with that name ends the wait with the
    /// parameter; one that cannot be decoded ends it with a decode failure;
    /// everything else is skipped.
    pub fn wait_for_param_inner(msg: &Message, param_name: &str, encoding: ParamEncodingType)
        -> (step: WaitStep)
        ensures
            match param_frame(*msg) {
                None => step is Skip,
                Some(data) => if !decodable(data, encoding) {
                    step matches WaitStep::Failed(e) && e == CoreError::Decode
                } else if parameter_of(data, encoding).name != param_name@ {
                    step is Skip
                } else {
                    step matches WaitStep::Found(p) && p@ == parameter_of(data, encoding)
                },
            },
    {
        let data = match received_param(msg) {
            Some(data) => data,
            None => {
                return WaitStep::Skip;
            },
        };
        let parameter = match decode_frame(&data, encoding) {
            Some(parameter) => parameter,
            None => {
                return WaitStep::Failed(CoreError::Decode);
            },
        };
        if !same_text(parameter.name.as_str(), param_name) {
            return WaitStep::Skip;
        }
        WaitStep::Found(parameter)
    }

    /// How a write begins: with the run that sends the write request (the
    /// name field, the wire word and the type tag of the parameter) and
    /// waits for the autopilot's answer, five times at most. Fails exactly
    /// under the unsupported encoding.
    pub fn set_param(&self, parameter: &Parameter) -> (r: Result<ParamRun, CoreError>)
        requires
            !parameter.value.spec_is_wide(),
        ensures
            r is Err <==> self.encoding == ParamEncodingType::Unsupported,
            r matches Err(e) ==> e == CoreError::UnsupportedEncoding,
            r matches Ok(run) ==> run.tries_left == MAX_TRIES && (run.request matches Message::ToBeSent(
                (header, MavMessage::PARAM_SET(request)),
            ) && {
                &&& header == self.spec_header()
                &&& request.target_system == self.system_id
                &&& request.target_component == MAV_COMP_ID_AUTOPILOT1
                &&& request.param_id@ == id_of_bytes(encode_utf8(parameter.name@))
                &&& request.param_value == wire_word(parameter.value, self.encoding)
                &&& request.param_type == parameter.value.spec_kind()
            }),
    {
        let word = match parameter.param_value(self.encoding) {
            Ok(word) => word,
            Err(e) => {
                return Err(e);
            },
        };
        Ok(
            ParamRun::new(
                Message::ToBeSent(
                    (
                        self.header(),
                        MavMessage::PARAM_SET(
                            ParamSet {
                                target_system: self.system_id,
                                target_component: MAV_COMP_ID_AUTOPILOT1,
                                param_id: parameter.param_id(),
                                param_value: word,
                                param_type: parameter.param_type(),
                            },
                        ),
                    ),
                ),
            ),
        )
    }

    /// The end of a write: the autopilot's answer is compared with what was
    /// sent, wire word against wire word. Equal words confirm the write and
    /// the answer is returned; different words are a rejection that carries
    /// both.
    pub fn set_param_inner(
        sent: &Parameter,
        received: &Parameter,
        encoding: ParamEncodingType,
    ) -> (r: Result<Parameter, CoreError>)
        requires
            !sent.value.spec_is_wide(),
            !received.value.spec_is_wide(),
        ensures
            match r {
                Ok(p) => write_confirmed(sent@, received@, encoding) && p@ == received@,
                Err(e) => if encoding == ParamEncodingType::Unsupported {
                    e == CoreError::UnsupportedEncoding
                } else {
                    &&& !write_confirmed(sent@, received@, encoding)
                    &&& e == CoreError::Rejected(
                        Rejection::Parameter {
                            sent: wire_word(sent.value, encoding) as u32,
                            got: wire_word(received.value, encoding) as u32,
                        },
                    )
                },
            },
    {
        let sent_word = match sent.param_value(encoding) {
            Ok(word) => word,
            Err(e) => {
                return Err(e);
            },
        };
        let got_word = match received.param_value(encoding) {
            Ok(word) => word,
            Err(e) => {
                return Err(e);
            },
        };
        if sent_word != got_word {
            return Err(CoreError::Rejected(Rejection::Parameter { sent: sent_word, got: got_word }));
        }
        Ok(received.clone())
    }

    /// The periodic sign of life with the given running number, and the
    /// number of the one after it, which wraps from 255 to 0.
    pub fn heartbeat_task(&self, sequence: u8) -> (r: (Message, u8))
        ensures
            r.0 == Message::ToBeSent(
                (
                    MavHeader {
                        system_id: self.system_id,
                        component_id: self.component_id,
                        sequence,
                    },
                    MavMessage::HEARTBEAT(
                        Heartbeat {
                            custom_mode: 0,
                            mavtype: MAV_TYPE_CAMERA,
                            autopilot: MAV_AUTOPILOT_INVALID,
                            base_mode: 0,
                            system_status: MAV_STATE_STANDBY,
                            mavlink_version: 3,
                        },
                    ),
                ),
            ),
            r.1 == (if sequence == 255 {
                0int
            } else {
                sequence + 1
            }),
    {
        let next: u8 = if sequence == 255 {
            0
        } else {
            sequence + 1
        };
        (
            Message::ToBeSent(
                (
                    MavHeader {
                        system_id: self.system_id,
                        component_id: self.component_id,
                        sequence,
                    },
                    MavMessage::HEARTBEAT(
                        Heartbeat {
                            custom_mode: 0,
                            mavtype: MAV_TYPE_CAMERA,
                            autopilot: MAV_AUTOPILOT_INVALID,
                            base_mode: 0,
                            system_status: MAV_STATE_STANDBY,
                            mavlink_version: 3,
                        },
                    ),
                ),
            ),
            next,
        )
    }

    /// What the outbound pump does with a bus message: a frame that is to be
    /// sent goes to the link, everything else is passed over.
    pub fn sender_task(msg: &Message) -> (r: Option<(MavHeader, MavMessage)>)
        ensures
            r == (match *msg {
                Message::ToBeSent(frame) => Some(frame),
                _ => None,
            }),
    {
        match msg {
            Message::ToBeSent(frame) => Some(*frame),
            _ => None,
        }
    }

    /// What the inbound pump puts on the bus for a frame from the link.
    pub fn receiver_task(header: MavHeader, message: MavMessage) -> (m: Message)
        ensures
            m == Message::Received((header, message)),
    {
        Message::Received((header, message))
    }

    /// A command for the autopilot with one argument, as a whole number.
    fn command(&self, command: u16, argument: u32) -> (c: CommandLong)
        ensures
            c == command_for(self.system_id, command, single_of_nat(argument as nat) as u32),
    {
        CommandLong {
            target_system: self.system_id,
            target_component: MAV_COMP_ID_AUTOPILOT1,
            command,
            confirmation: 0,
            param1: single_from_u32(argument),
            param2: 0,
            param3: 0,
            param4: 0,
            param5: 0,
            param6: 0,
            param7: 0,
        }
    }

    /// The command that makes the scripting engine stop and start again.
    pub fn reload_lua_scripts(&self) -> (c: CommandLong)
        ensures
            c == command_for(
                self.system_id,
                MAV_CMD_SCRIPTING,
                single_of_nat(SCRIPTING_CMD_STOP_AND_RESTART as nat) as u32,
            ),
    {
        self.command(MAV_CMD_SCRIPTING, SCRIPTING_CMD_STOP_AND_RESTART)
    }

    /// The command that reboots the autopilot.
    pub fn reboot_autopilot(&self) -> (c: CommandLong)
        ensures
            c == command_for(
                self.system_id,
                MAV_CMD_PREFLIGHT_REBOOT_SHUTDOWN,
                single_of_nat(1) as u32,
            ),
    {
        self.command(MAV_CMD_PREFLIGHT_REBOOT_SHUTDOWN, 1)
    }

    /// The command that asks the autopilot for the camera settings.
    pub fn request_camera_settings(&self) -> (c: CommandLong)
        ensures
            c == command_for(
                self.system_id,
                MAV_CMD_REQUEST_MESSAGE,
                single_of_nat(CAMERA_SETTINGS_ID as nat) as u32,
            ),
    {
        self.command(MAV_CMD_REQUEST_MESSAGE, CAMERA_SETTINGS_ID)
    }

    /// The run of a command: the command goes out as it was given, and the
    /// acknowledgement is awaited from the autopilot of this component's
    /// system.
    pub fn send_command(&self, command: CommandLong) -> (run: CommandRun)
        ensures
            run.command == command,
            run.system_id == self.system_id,
    {
        CommandRun::new(command, self.system_id)
    }

    /// The camera settings in a bus message, where it is the autopilot's
    /// camera settings message.
    pub fn wait_camera_settings(&self, msg: &Message) -> (r: Option<CameraSettings>)
        ensures
            r == camera_settings_of(*msg, self.system_id),
    {
        match msg {
            Message::Received((header, MavMessage::CAMERA_SETTINGS(settings))) => {
                if header.system_id == self.system_id && header.component_id
                    == MAV_COMP_ID_AUTOPILOT1 {
                    Some(*settings)
                } else {
                    None
                }
            },
            _ => None,
        }
    }

    /// Whether scripting has to be switched on: given the current value of
    /// the autopilot's scripting switch, the parameter to write, or nothing
    /// where the switch already stands at one and nothing forces a write.
    /// A write means that the autopilot has to be rebooted.
    pub fn enable_lua_script(&self, overwrite: bool, current: &Parameter) -> (r: Result<
        Option<Parameter>,
        CoreError,
    >)
        requires
            !current.value.spec_is_wide(),
        ensures
            r is Err <==> self.encoding == ParamEncodingType::Unsupported,
            r matches Err(e) ==> e == CoreError::UnsupportedEncoding,
            r matches Ok(w) ==> {
                let target = restamped(current.value, ParamType::REAL32(SINGLE_ONE), self.encoding);
                match w {
                    Some(p) => (overwrite || current.value != target) && p@ == (ParameterView {
                        name: current.name@,
                        value: target,
                    }),
                    None => !overwrite && current.value == target,
                }
            },
    {
        let mut param = current.clone();
        match param.value.set_value(ParamType::REAL32(SINGLE_ONE), self.encoding) {
            Ok(()) => {},
            Err(e) => {
                return Err(e);
            },
        }
        if overwrite || current.value != param.value {
            Ok(Some(param))
        } else {
            Ok(None)
        }
    }
}

/// A write is confirmed when the answer's wire word is the word that was
/// sent.
pub open spec fn write_confirmed(
    sent: ParameterView,
    received: ParameterView,
    encoding: ParamEncodingType,
) -> bool {
    encoding != ParamEncodingType::Unsupported && wire_word(sent.value, encoding) == wire_word(
        received.value,
        encoding,
    )
}

/// Cache consistency: once a write is confirmed by an answer that went into
/// the cache, a read from the cache under the written name gives that
/// answer, and the answer carries the wire word that was written. Where
/// answer and written value are of one type that the encoding carries
/// without loss, the read gives the written value itself.
pub proof fn lemma_cache_consistency(
    cache: Seq<ParameterView>,
    sent: ParameterView,
    received: ParameterView,
    encoding: ParamEncodingType,
)
    requires
        names_distinct(cache),
        received.name == sent.name,
        !sent.value.spec_is_wide(),
        !received.value.spec_is_wide(),
        write_confirmed(sent, received, encoding),
    ensures
        lookup(upsert(cache, received), sent.name) == Some(received),
        wire_word(received.value, encoding) == wire_word(sent.value, encoding),
        received.value.spec_kind() == sent.value.spec_kind() && (encoding
            == ParamEncodingType::CCast ==> ccast_exact(sent.value) && ccast_exact(
            received.value,
        )) ==> received.value == sent.value,
{
    lemma_upsert(cache, received);
    if received.value.spec_kind() == sent.value.spec_kind() && (encoding
        == ParamEncodingType::CCast ==> ccast_exact(sent.value) && ccast_exact(received.value)) {
        lemma_round_trip(sent.value, encoding);
        lemma_round_trip(received.value, encoding);
    }
}

/// Bulk-dump completeness: when a fetch completes on a frame, that frame
/// carries the last index and the table holds exactly as many parameters as
/// the frame announces. (That every index arrived exactly once is what
/// `MavlinkComponent::update_all_params` adds where the frames since the
/// last request arrived in turn.)
pub proof fn lemma_dump_complete(
    table: Seq<ParameterView>,
    msg: Message,
    encoding: ParamEncodingType,
)
    requires
        dump_step(table, msg, encoding) == DumpStep::Complete,
    ensures
        related_frame(msg) matches Some(data) && gathered(table, msg, encoding).len()
            == data.param_count && data.param_index + 1 == data.param_count,
{
}

} // verus!
