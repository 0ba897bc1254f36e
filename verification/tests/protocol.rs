use radcam_manager::cache::ParamCache;
use radcam_manager::error::{CoreError, Rejection};
use radcam_manager::frames::{
    CameraSettings, CommandAck, CommandLong, Heartbeat, MavHeader, MavMessage, Message,
};
use radcam_manager::parameters::{
    MavParamType, ParamEncodingType, ParamType, ParamValueData, Parameter,
};
use radcam_manager::protocol::{
    AckStep, CommandRun, DumpStep, EncodingNote, MavlinkComponent, ParamDump, ParamRun,
    ReadStart, SyncOutcome, Verdict, WaitOutcome, WaitStep,
};

fn peer() -> MavHeader {
    MavHeader { system_id: 1, component_id: 1, sequence: 9 }
}

fn value_frame(name: &str, value: f32, kind: MavParamType, index: u16, count: u16) -> Message {
    Message::Received((
        peer(),
        MavMessage::PARAM_VALUE(ParamValueData {
            param_value: value.to_bits(),
            param_count: count,
            param_index: index,
            param_id: Parameter::param_name_to_id(name),
            param_type: kind,
        }),
    ))
}

fn version(capabilities: u64) -> Message {
    Message::Received((peer(), MavMessage::AUTOPILOT_VERSION { capabilities }))
}

fn component(encoding: ParamEncodingType) -> MavlinkComponent {
    let mut c = MavlinkComponent::new(1, 100);
    c.encoding = encoding;
    c
}

fn cached(c: &MavlinkComponent, name: &str) -> Option<Parameter> {
    match c.get_param(name, false) {
        ReadStart::Cached(p) => Some(p),
        ReadStart::Ask(_) => None,
    }
}

fn param(name: &str, value: ParamType) -> Parameter {
    Parameter { name: name.to_string(), value }
}

#[test]
fn new_component_knows_nothing() {
    let c = MavlinkComponent::new(7, 42);
    assert_eq!(c.system_id, 7);
    assert_eq!(c.component_id, 42);
    assert_eq!(c.encoding(), ParamEncodingType::Unsupported);
    assert_eq!(c.parameters.len(), 0);
    assert_eq!(c.header(), MavHeader { system_id: 7, component_id: 42, sequence: 0 });
}

#[test]
fn plain_float_capability_means_numeric_cast() {
    let mut c = MavlinkComponent::new(1, 100);
    assert_eq!(c.configure_parameter_encoding(&version(2)), Some(EncodingNote::Plain));
    assert_eq!(c.encoding(), ParamEncodingType::CCast);
    let mut c = MavlinkComponent::new(1, 100);
    assert_eq!(c.configure_parameter_encoding(&version(131072)), Some(EncodingNote::Plain));
    assert_eq!(c.encoding(), ParamEncodingType::CCast);
    let mut c = MavlinkComponent::new(1, 100);
    assert_eq!(c.configure_parameter_encoding(&version(131072 + 1 + 64)), Some(EncodingNote::Plain));
    assert_eq!(c.encoding(), ParamEncodingType::CCast);
}

#[test]
fn bytewise_capability_wins_over_numeric_cast() {
    let mut c = MavlinkComponent::new(1, 100);
    assert_eq!(c.configure_parameter_encoding(&version(16)), Some(EncodingNote::Plain));
    assert_eq!(c.encoding(), ParamEncodingType::ByteWise);
    let mut c = MavlinkComponent::new(1, 100);
    assert_eq!(c.configure_parameter_encoding(&version(16 + 2)), Some(EncodingNote::BothOffered));
    assert_eq!(c.encoding(), ParamEncodingType::ByteWise);
    let mut c = MavlinkComponent::new(1, 100);
    assert_eq!(
        c.configure_parameter_encoding(&version(16 + 131072)),
        Some(EncodingNote::BothOffered)
    );
    assert_eq!(c.encoding(), ParamEncodingType::ByteWise);
}

#[test]
fn no_capability_means_unsupported() {
    let mut c = component(ParamEncodingType::CCast);
    assert_eq!(c.configure_parameter_encoding(&version(1 + 4 + 8 + 32)), Some(EncodingNote::NoneOffered));
    assert_eq!(c.encoding(), ParamEncodingType::Unsupported);
}

#[test]
fn other_messages_leave_the_encoding_alone() {
    let mut c = component(ParamEncodingType::CCast);
    assert_eq!(c.configure_parameter_encoding(&Message::Received((peer(), MavMessage::Other(0)))), None);
    assert_eq!(
        c.configure_parameter_encoding(&Message::ToBeSent((
            peer(),
            MavMessage::AUTOPILOT_VERSION { capabilities: 16 }
        ))),
        None
    );
    assert_eq!(c.encoding(), ParamEncodingType::CCast);
}

#[test]
fn requests_name_the_autopilot() {
    let c = MavlinkComponent::new(3, 100);
    let header = MavHeader { system_id: 3, component_id: 100, sequence: 0 };
    assert_eq!(
        c.version_request(),
        Message::ToBeSent((
            header,
            MavMessage::AUTOPILOT_VERSION_REQUEST { target_system: 3, target_component: 1 }
        ))
    );
    assert_eq!(
        c.list_request(),
        Message::ToBeSent((
            header,
            MavMessage::PARAM_REQUEST_LIST { target_system: 3, target_component: 1 }
        ))
    );
    match c.read_request("SERVO10_MIN") {
        Message::ToBeSent((h, MavMessage::PARAM_REQUEST_READ(r))) => {
            assert_eq!(h, header);
            assert_eq!(r.target_system, 3);
            assert_eq!(r.target_component, 1);
            assert_eq!(r.param_index, -1);
            assert_eq!(r.param_id, Parameter::param_name_to_id("SERVO10_MIN"));
        }
        other => panic!("unexpected request {:?}", other),
    }
}

#[test]
fn full_dump_fills_the_cache() {
    let mut c = component(ParamEncodingType::CCast);
    let mut dump = ParamDump::new();
    let names = ["A", "B", "C", "D"];
    for (i, name) in names.iter().enumerate() {
        let step = c.update_all_params(
            &mut dump,
            &value_frame(name, i as f32, MavParamType::MAV_PARAM_TYPE_UINT8, i as u16, 4),
        );
        if i < 3 {
            assert_eq!(step, DumpStep::Stored);
            assert_eq!(c.parameters.len(), 0);
        } else {
            assert_eq!(step, DumpStep::Complete);
        }
    }
    assert_eq!(c.parameters.len(), 4);
    assert!(dump.refetch.is_empty());
    assert_eq!(c.parameters.get("C"), Some(param("C", ParamType::UINT8(2))));
    assert_eq!(cached(&c, "D"), Some(param("D", ParamType::UINT8(3))));
}

#[test]
fn dump_skips_unrelated_and_foreign_frames() {
    let mut dump = ParamDump::new();
    let e = ParamEncodingType::CCast;
    assert_eq!(
        dump.accept(&value_frame("X", 1.0, MavParamType::MAV_PARAM_TYPE_UINT8, 0xFFFF, 3), e),
        DumpStep::Skipped
    );
    assert_eq!(dump.accept(&Message::Received((peer(), MavMessage::Other(30))), e), DumpStep::Skipped);
    assert_eq!(
        dump.accept(
            &Message::ToBeSent((
                peer(),
                MavMessage::PARAM_REQUEST_LIST { target_system: 1, target_component: 1 }
            )),
            e
        ),
        DumpStep::Skipped
    );
    assert_eq!(dump.counter, 0);
    assert_eq!(dump.parameters.len(), 0);
}

#[test]
fn dump_with_a_missed_frame_restarts_and_then_completes() {
    let mut c = component(ParamEncodingType::ByteWise);
    let mut dump = ParamDump::new();
    let kind = MavParamType::MAV_PARAM_TYPE_REAL32;
    assert_eq!(c.update_all_params(&mut dump, &value_frame("A", 1.0, kind, 0, 3)), DumpStep::Stored);
    assert_eq!(c.update_all_params(&mut dump, &value_frame("C", 3.0, kind, 2, 3)), DumpStep::Restart);
    assert_eq!(dump.refetch, vec![2]);
    assert_eq!(dump.counter, 0);
    assert_eq!(dump.parameters.len(), 2);
    assert_eq!(c.parameters.len(), 0);
    assert_eq!(c.update_all_params(&mut dump, &value_frame("A", 1.0, kind, 0, 3)), DumpStep::Stored);
    assert_eq!(c.update_all_params(&mut dump, &value_frame("B", 2.0, kind, 1, 3)), DumpStep::Stored);
    assert_eq!(c.update_all_params(&mut dump, &value_frame("C", 3.0, kind, 2, 3)), DumpStep::Complete);
    assert_eq!(c.parameters.len(), 3);
    assert_eq!(c.parameters.get("B"), Some(param("B", ParamType::REAL32(2.0f32.to_bits()))));
}

#[test]
fn dump_under_unsupported_encoding_stores_nothing() {
    let mut dump = ParamDump::new();
    let step = dump.accept(
        &value_frame("A", 1.0, MavParamType::MAV_PARAM_TYPE_UINT8, 0, 1),
        ParamEncodingType::Unsupported,
    );
    assert_eq!(step, DumpStep::Skipped);
    assert_eq!(dump.counter, 1);
    assert_eq!(dump.parameters.len(), 0);
    let step = dump.accept(
        &value_frame("W", 1.0, MavParamType::MAV_PARAM_TYPE_UINT64, 1, 2),
        ParamEncodingType::CCast,
    );
    assert_eq!(step, DumpStep::Skipped);
    assert_eq!(dump.parameters.len(), 0);
}

#[test]
fn sync_adds_updates_and_keeps_quiet_about_runtime() {
    let mut c = component(ParamEncodingType::CCast);
    let kind = MavParamType::MAV_PARAM_TYPE_INT16;
    assert_eq!(c.params_sync_task(&value_frame("SERVO10_FUNCTION", 92.0, kind, 5, 900)), SyncOutcome::Added);
    assert_eq!(
        c.params_sync_task(&value_frame("SERVO10_FUNCTION", 92.0, kind, 5, 900)),
        SyncOutcome::Updated { changed: false, report: false }
    );
    assert_eq!(
        c.params_sync_task(&value_frame("SERVO10_FUNCTION", 0.0, kind, 0xFFFF, 900)),
        SyncOutcome::Updated { changed: true, report: true }
    );
    assert_eq!(c.parameters.get("SERVO10_FUNCTION"), Some(param("SERVO10_FUNCTION", ParamType::INT16(0))));
    assert_eq!(c.params_sync_task(&value_frame("STAT_RUNTIME", 1.0, kind, 1, 900)), SyncOutcome::Added);
    assert_eq!(
        c.params_sync_task(&value_frame("STAT_RUNTIME", 2.0, kind, 1, 900)),
        SyncOutcome::Updated { changed: true, report: false }
    );
    assert_eq!(c.params_sync_task(&Message::Received((peer(), MavMessage::Other(1)))), SyncOutcome::Ignored);
    assert_eq!(
        c.params_sync_task(&value_frame("WIDE", 2.0, MavParamType::MAV_PARAM_TYPE_REAL64, 1, 900)),
        SyncOutcome::Undecodable
    );
    assert_eq!(c.parameters.len(), 2);
}

#[test]
fn get_param_reads_the_cache_unless_told_to_skip_it() {
    let mut c = component(ParamEncodingType::CCast);
    c.parameters.insert(param("SCR_ENABLE", ParamType::REAL32(0)));
    assert_eq!(cached(&c, "SCR_ENABLE"), Some(param("SCR_ENABLE", ParamType::REAL32(0))));
    match c.get_param("SCR_ENABLE", true) {
        ReadStart::Ask(run) => {
            assert_eq!(run.tries_left, 5);
            assert_eq!(run.request, c.read_request("SCR_ENABLE"));
        }
        ReadStart::Cached(p) => panic!("the cache was to be skipped, got {:?}", p),
    }
    match c.get_param("SCR_HEAP", false) {
        ReadStart::Ask(run) => {
            assert_eq!(run.tries_left, 5);
            assert_eq!(run.request, c.read_request("SCR_HEAP"));
        }
        ReadStart::Cached(p) => panic!("nothing is cached, got {:?}", p),
    }
}

#[test]
fn read_verdicts_follow_the_retry_policy() {
    let p = param("A", ParamType::UINT8(1));
    assert!(matches!(MavlinkComponent::get_param_inner(0, WaitOutcome::Found(p.clone())), Verdict::Done(q) if q == p));
    assert!(matches!(
        MavlinkComponent::get_param_inner(4, WaitOutcome::TimedOut),
        Verdict::Again { pause: true }
    ));
    assert!(matches!(
        MavlinkComponent::get_param_inner(4, WaitOutcome::SendFailed),
        Verdict::Again { pause: true }
    ));
    assert!(matches!(
        MavlinkComponent::get_param_inner(1, WaitOutcome::Failed(CoreError::Decode)),
        Verdict::Again { pause: false }
    ));
    assert!(matches!(
        MavlinkComponent::get_param_inner(0, WaitOutcome::TimedOut),
        Verdict::GiveUp(CoreError::Timeout)
    ));
    assert!(matches!(
        MavlinkComponent::get_param_inner(0, WaitOutcome::Failed(CoreError::Decode)),
        Verdict::GiveUp(CoreError::Decode)
    ));
    assert!(matches!(
        MavlinkComponent::get_param_inner(0, WaitOutcome::SendFailed),
        Verdict::GiveUp(CoreError::Timeout)
    ));
}

#[test]
fn waiting_for_a_parameter_matches_by_name() {
    let e = ParamEncodingType::CCast;
    let kind = MavParamType::MAV_PARAM_TYPE_UINT16;
    assert!(matches!(
        MavlinkComponent::wait_for_param_inner(&value_frame("SERVO10_MIN", 870.0, kind, 3, 9), "SERVO10_MIN", e),
        WaitStep::Found(p) if p == param("SERVO10_MIN", ParamType::UINT16(870))
    ));
    assert!(matches!(
        MavlinkComponent::wait_for_param_inner(&value_frame("SERVO10_MAX", 870.0, kind, 3, 9), "SERVO10_MIN", e),
        WaitStep::Skip
    ));
    assert!(matches!(
        MavlinkComponent::wait_for_param_inner(&Message::Received((peer(), MavMessage::Other(4))), "SERVO10_MIN", e),
        WaitStep::Skip
    ));
    assert!(matches!(
        MavlinkComponent::wait_for_param_inner(
            &value_frame("SERVO10_MIN", 870.0, kind, 3, 9),
            "SERVO10_MIN",
            ParamEncodingType::Unsupported
        ),
        WaitStep::Failed(CoreError::Decode)
    ));
}

#[test]
fn write_request_carries_name_word_and_type() {
    let c = component(ParamEncodingType::CCast);
    let p = param("SERVO11_FUNCTION", ParamType::INT16(180));
    let run = c.set_param(&p).unwrap();
    assert_eq!(run.tries_left, 5);
    match run.request {
        Message::ToBeSent((h, MavMessage::PARAM_SET(s))) => {
            assert_eq!(h, c.header());
            assert_eq!(s.target_system, 1);
            assert_eq!(s.target_component, 1);
            assert_eq!(s.param_id, Parameter::param_name_to_id("SERVO11_FUNCTION"));
            assert_eq!(s.param_value, 180.0f32.to_bits());
            assert_eq!(s.param_type, MavParamType::MAV_PARAM_TYPE_INT16);
        }
        other => panic!("unexpected {:?}", other),
    }
    let c = component(ParamEncodingType::Unsupported);
    assert!(matches!(c.set_param(&p), Err(CoreError::UnsupportedEncoding)));
}

#[test]
fn write_is_confirmed_by_an_equal_wire_word() {
    let sent = param("SERVO11_MIN", ParamType::UINT16(935));
    let same = param("SERVO11_MIN", ParamType::INT16(935));
    let other = param("SERVO11_MIN", ParamType::UINT16(900));
    let e = ParamEncodingType::CCast;
    assert_eq!(MavlinkComponent::set_param_inner(&sent, &same, e), Ok(same.clone()));
    assert_eq!(
        MavlinkComponent::set_param_inner(&sent, &other, e),
        Err(CoreError::Rejected(Rejection::Parameter {
            sent: 935.0f32.to_bits(),
            got: 900.0f32.to_bits()
        }))
    );
    assert_eq!(
        MavlinkComponent::set_param_inner(&sent, &same, ParamEncodingType::Unsupported),
        Err(CoreError::UnsupportedEncoding)
    );
}

#[test]
fn confirmed_write_is_what_the_cache_then_returns() {
    let mut c = component(ParamEncodingType::ByteWise);
    let sent = param("MNT1_PITCH_MIN", ParamType::INT32(-90));
    let frame = value_frame("MNT1_PITCH_MIN", f32::from_bits(0xFFFF_FFA6), MavParamType::MAV_PARAM_TYPE_INT32, 0xFFFF, 10);
    let reply = match MavlinkComponent::wait_for_param_inner(&frame, "MNT1_PITCH_MIN", c.encoding()) {
        WaitStep::Found(p) => p,
        other => panic!("unexpected {:?}", other),
    };
    c.params_sync_task(&frame);
    assert_eq!(MavlinkComponent::set_param_inner(&sent, &reply, c.encoding()), Ok(sent.clone()));
    assert_eq!(cached(&c, "MNT1_PITCH_MIN"), Some(sent));
}

#[test]
fn command_is_tried_five_times_with_rising_confirmation() {
    let c = MavlinkComponent::new(1, 100);
    let mut run = c.send_command(c.reload_lua_scripts());
    for n in 0..5u8 {
        let frame = run.next_attempt().unwrap();
        assert_eq!(frame.confirmation, n);
        assert_eq!(frame.command, 42701);
        assert_eq!(frame.target_system, 1);
        assert_eq!(frame.target_component, 1);
    }
    assert_eq!(run.next_attempt(), Err(CoreError::Timeout));
    assert_eq!(run.next_attempt(), Err(CoreError::Timeout));
}

#[test]
fn acknowledgements_are_matched_by_peer_and_command() {
    let c = MavlinkComponent::new(1, 100);
    let run: CommandRun = c.send_command(c.reboot_autopilot());
    let ack = |system: u8, comp: u8, command: u16, result: u8| {
        Message::Received((
            MavHeader { system_id: system, component_id: comp, sequence: 0 },
            MavMessage::COMMAND_ACK(CommandAck { command, result }),
        ))
    };
    assert_eq!(run.classify(&ack(1, 1, 246, 0)), AckStep::Accepted);
    assert_eq!(run.classify(&ack(1, 1, 246, 4)), AckStep::Rejected(4));
    assert_eq!(run.classify(&ack(1, 1, 512, 0)), AckStep::Skip);
    assert_eq!(run.classify(&ack(2, 1, 246, 0)), AckStep::Skip);
    assert_eq!(run.classify(&ack(1, 2, 246, 0)), AckStep::Skip);
    assert_eq!(run.classify(&Message::ToBeSent((peer(), MavMessage::COMMAND_ACK(CommandAck { command: 246, result: 0 })))), AckStep::Skip);
    assert_eq!(run.conclude(AckStep::Skip), None);
    assert_eq!(run.conclude(AckStep::Accepted), Some(Ok(())));
    assert_eq!(
        run.conclude(AckStep::Rejected(3)),
        Some(Err(CoreError::Rejected(Rejection::Command { command: 246, result: 3 })))
    );
}

#[test]
fn command_frames_carry_their_argument_as_a_real() {
    let c = MavlinkComponent::new(5, 100);
    let reload = c.reload_lua_scripts();
    assert_eq!(reload.command, 42701);
    assert_eq!(reload.param1, 3.0f32.to_bits());
    assert_eq!(reload.target_system, 5);
    let reboot = c.reboot_autopilot();
    assert_eq!(reboot.command, 246);
    assert_eq!(reboot.param1, 1.0f32.to_bits());
    let request = c.request_camera_settings();
    assert_eq!(request.command, 512);
    assert_eq!(request.param1, 260.0f32.to_bits());
    assert_eq!(
        request,
        CommandLong {
            target_system: 5,
            target_component: 1,
            command: 512,
            confirmation: 0,
            param1: 260.0f32.to_bits(),
            param2: 0,
            param3: 0,
            param4: 0,
            param5: 0,
            param6: 0,
            param7: 0
        }
    );
}

#[test]
fn heartbeat_counts_and_wraps() {
    let c = MavlinkComponent::new(1, 100);
    let (frame, next) = c.heartbeat_task(254);
    assert_eq!(next, 255);
    assert_eq!(
        frame,
        Message::ToBeSent((
            MavHeader { system_id: 1, component_id: 100, sequence: 254 },
            MavMessage::HEARTBEAT(Heartbeat {
                custom_mode: 0,
                mavtype: 30,
                autopilot: 8,
                base_mode: 0,
                system_status: 3,
                mavlink_version: 3
            })
        ))
    );
    assert_eq!(c.heartbeat_task(255).1, 0);
    assert_eq!(c.heartbeat_task(0).1, 1);
}

#[test]
fn pumps_pass_the_right_direction() {
    let frame = (peer(), MavMessage::Other(77));
    assert_eq!(MavlinkComponent::sender_task(&Message::ToBeSent(frame)), Some(frame));
    assert_eq!(MavlinkComponent::sender_task(&Message::Received(frame)), None);
    assert_eq!(MavlinkComponent::receiver_task(frame.0, frame.1), Message::Received(frame));
}

#[test]
fn camera_settings_come_from_the_autopilot_only() {
    let c = MavlinkComponent::new(1, 100);
    let settings = CameraSettings { zoom_level: 50.0f32.to_bits(), focus_level: 20.0f32.to_bits() };
    let from = |system: u8, comp: u8| {
        Message::Received((
            MavHeader { system_id: system, component_id: comp, sequence: 0 },
            MavMessage::CAMERA_SETTINGS(settings),
        ))
    };
    assert_eq!(c.wait_camera_settings(&from(1, 1)), Some(settings));
    assert_eq!(c.wait_camera_settings(&from(1, 100)), None);
    assert_eq!(c.wait_camera_settings(&from(2, 1)), None);
    assert_eq!(c.wait_camera_settings(&Message::Received((peer(), MavMessage::Other(260)))), None);
}

#[test]
fn scripting_switch_is_written_only_when_needed() {
    let c = component(ParamEncodingType::CCast);
    let off = param("SCR_ENABLE", ParamType::INT8(0));
    let on = param("SCR_ENABLE", ParamType::INT8(1));
    assert_eq!(c.enable_lua_script(false, &off), Ok(Some(on.clone())));
    assert_eq!(c.enable_lua_script(false, &on), Ok(None));
    assert_eq!(c.enable_lua_script(true, &on), Ok(Some(on.clone())));
    let c = component(ParamEncodingType::Unsupported);
    assert_eq!(c.enable_lua_script(true, &on), Err(CoreError::UnsupportedEncoding));
}

#[test]
fn cache_keeps_insertion_order_and_replaces_in_place() {
    let mut cache = ParamCache::new();
    assert_eq!(cache.insert(param("A", ParamType::UINT8(1))), None);
    assert_eq!(cache.insert(param("B", ParamType::UINT8(2))), None);
    assert_eq!(cache.insert(param("A", ParamType::UINT8(3))), Some(param("A", ParamType::UINT8(1))));
    assert_eq!(cache.len(), 2);
    assert_eq!(cache.get("A"), Some(param("A", ParamType::UINT8(3))));
    assert_eq!(cache.get("B"), Some(param("B", ParamType::UINT8(2))));
    assert_eq!(cache.get("C"), None);
}

#[test]
fn a_read_on_a_flapping_link_ends_in_success_or_timeout() {
    let c = MavlinkComponent::new(1, 100);
    let p = param("SERVO10_MIN", ParamType::UINT16(870));
    let runs: Vec<Vec<WaitOutcome>> = vec![
        vec![WaitOutcome::TimedOut, WaitOutcome::TimedOut, WaitOutcome::Found(p.clone())],
        vec![
            WaitOutcome::SendFailed,
            WaitOutcome::TimedOut,
            WaitOutcome::TimedOut,
            WaitOutcome::TimedOut,
            WaitOutcome::TimedOut,
            WaitOutcome::TimedOut,
            WaitOutcome::TimedOut,
        ],
        vec![
            WaitOutcome::Failed(CoreError::Decode),
            WaitOutcome::Failed(CoreError::Decode),
            WaitOutcome::Failed(CoreError::Decode),
            WaitOutcome::Failed(CoreError::Decode),
            WaitOutcome::Failed(CoreError::Decode),
        ],
    ];
    let mut results = Vec::new();
    for outcomes in runs {
        let mut run = ParamRun::new(c.read_request("SERVO10_MIN"));
        assert_eq!(run.tries_left, 5);
        let mut requests = 0;
        let mut pauses = 0;
        let mut result = None;
        for outcome in outcomes {
            match run.next_attempt() {
                Ok(request) => {
                    assert_eq!(request, c.read_request("SERVO10_MIN"));
                    requests += 1;
                }
                Err(error) => {
                    result = Some(Err(error));
                    break;
                }
            }
            match run.conclude(outcome) {
                Verdict::Done(found) => {
                    result = Some(Ok(found));
                    break;
                }
                Verdict::Again { pause } => {
                    if pause {
                        pauses += 1;
                    }
                }
                Verdict::GiveUp(error) => {
                    result = Some(Err(error));
                    break;
                }
            }
        }
        results.push((result, requests, pauses));
    }
    assert_eq!(results[0], (Some(Ok(p)), 3, 2));
    assert_eq!(results[1], (Some(Err(CoreError::Timeout)), 5, 4));
    assert_eq!(results[2], (Some(Err(CoreError::Decode)), 5, 0));
}

#[test]
fn a_run_without_tries_left_times_out() {
    let c = MavlinkComponent::new(1, 100);
    let mut run = ParamRun::new(c.read_request("A"));
    for left in [4u8, 3, 2, 1, 0] {
        assert!(run.next_attempt().is_ok());
        assert_eq!(run.tries_left, left);
    }
    assert_eq!(run.next_attempt(), Err(CoreError::Timeout));
    assert_eq!(run.next_attempt(), Err(CoreError::Timeout));
    assert_eq!(run.tries_left, 0);
}

#[test]
fn a_command_goes_out_as_it_was_given() {
    let c = MavlinkComponent::new(9, 100);
    let command = CommandLong {
        target_system: 1,
        target_component: 1,
        command: 532,
        confirmation: 0,
        param1: 2.0f32.to_bits(),
        param2: 7.5f32.to_bits(),
        param3: 0,
        param4: 4,
        param5: 5,
        param6: 6,
        param7: 7,
    };
    let mut run = c.send_command(command);
    assert_eq!(run.system_id, 9);
    for n in 0..5u8 {
        assert_eq!(run.next_attempt(), Ok(CommandLong { confirmation: n, ..command }));
    }
    assert_eq!(run.next_attempt(), Err(CoreError::Timeout));
    let ack = |system: u8| {
        Message::Received((
            MavHeader { system_id: system, component_id: 1, sequence: 0 },
            MavMessage::COMMAND_ACK(CommandAck { command: 532, result: 0 }),
        ))
    };
    assert_eq!(run.classify(&ack(9)), AckStep::Accepted);
    assert_eq!(run.classify(&ack(1)), AckStep::Skip);
    let late = CommandRun::new(CommandLong { confirmation: 3, ..command }, 9);
    let mut late = late;
    assert_eq!(late.next_attempt().unwrap().confirmation, 3);
    assert_eq!(late.next_attempt().unwrap().confirmation, 4);
    assert_eq!(late.next_attempt(), Err(CoreError::Timeout));
}

#[test]
fn a_pass_in_turn_saw_every_index_once() {
    let mut c = component(ParamEncodingType::CCast);
    let mut dump = ParamDump::new();
    let kind = MavParamType::MAV_PARAM_TYPE_UINT8;
    assert!(dump.in_turn);
    c.update_all_params(&mut dump, &value_frame("A", 1.0, kind, 0, 2));
    c.update_all_params(&mut dump, &value_frame("X", 1.0, kind, 0xFFFF, 2));
    assert!(dump.in_turn);
    assert_eq!(c.update_all_params(&mut dump, &value_frame("B", 2.0, kind, 0, 2)), DumpStep::Stored);
    assert!(!dump.in_turn);
    assert_eq!(c.update_all_params(&mut dump, &value_frame("B", 2.0, kind, 1, 2)), DumpStep::Complete);
    assert!(!dump.in_turn);
    assert_eq!(dump.refetch, vec![0, 1]);

    let mut c = component(ParamEncodingType::CCast);
    let mut dump = ParamDump::new();
    assert_eq!(c.update_all_params(&mut dump, &value_frame("B", 2.0, kind, 1, 2)), DumpStep::Restart);
    assert!(dump.in_turn);
    assert_eq!(dump.refetch, vec![1]);
    assert_eq!(c.update_all_params(&mut dump, &value_frame("A", 1.0, kind, 0, 2)), DumpStep::Stored);
    assert_eq!(c.update_all_params(&mut dump, &value_frame("B", 2.0, kind, 1, 2)), DumpStep::Complete);
    assert!(dump.in_turn);
    assert_eq!(c.parameters.len(), 2);
}
