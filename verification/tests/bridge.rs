use std::collections::HashMap;
use usrp_bridge::bridge::{
    BridgeEvent, NoticeKind, USRPEventHandlerData, UserData, HANGOVER_TICKS, PACKET_SAMPLES,
};
use usrp_bridge::usrp::packets::{AudioPacket, EndPacket, StartPacket, USRPPacket};
use usrp_bridge::usrp::USRPClient;

type Speaking = HashMap<u32, Option<Vec<i16>>>;

fn session() -> USRPEventHandlerData {
    USRPEventHandlerData::new(USRPClient::new())
}

fn user(id: u64, nick: &str, name: &str) -> UserData {
    UserData::new(id, Some(nick.to_string()), name.to_string())
}

fn frame(value: i16) -> Vec<i16> {
    vec![value; 1920]
}

fn speaking(entries: Vec<(u32, Option<Vec<i16>>)>) -> Speaking {
    let mut map = HashMap::new();
    for (ssrc, voice) in entries {
        map.insert(ssrc, voice);
    }
    map
}

#[test]
fn new_session_is_idle() {
    let data = session();
    assert_eq!(data.active_speaker(), None);
    assert_eq!(data.silence_countdown(), 0);
    assert!(data.ssrc_to_user(100).is_none());
    assert_eq!(data.user_to_ssrc(1), None);
    assert_eq!(HANGOVER_TICKS, 10);
    assert_eq!(PACKET_SAMPLES, 160);
}

#[test]
fn user_data_takes_callsign_from_nick() {
    let alice = user(1, "Alice ALC123X", "alice");
    assert_eq!(alice.callsign, "ALC123X");
    assert_eq!(alice.nick, "Alice ALC123X");
    assert_eq!(alice.name, "alice");
    assert_eq!(alice.id, 1);
    let plain = user(2, "Bob", "bob");
    assert_eq!(plain.callsign, "");
    let bare = UserData::new(3, None, "carol".to_string());
    assert_eq!(bare.callsign, "");
    assert_eq!(bare.nick, "");
    assert_eq!(bare.name, "carol");
    let copy = alice.duplicate();
    assert_eq!(copy.callsign, "ALC123X");
    assert_eq!(copy.nick, "Alice ALC123X");
    assert_eq!(copy.name, "alice");
    assert_eq!(copy.id, 1);
}

#[test]
fn bind_makes_the_participant_known() {
    let mut data = session();
    let reaction = data.speaking_state_update(100, user(1, "Alice ALC123X", "alice"));
    assert!(reaction.control.is_none());
    assert!(reaction.mono.is_none());
    let notice = reaction.notice.unwrap();
    assert_eq!(notice.kind, NoticeKind::Connected);
    assert_eq!(notice.user.callsign, "ALC123X");
    assert_eq!(notice.user.id, 1);
    assert_eq!(data.ssrc_to_user(100).unwrap().name, "alice");
    assert_eq!(data.user_to_ssrc(1), Some(100));
    assert_eq!(data.active_speaker(), None);
}

#[test]
fn rebinding_replaces_the_participant() {
    let mut data = session();
    data.speaking_state_update(100, user(1, "Alice", "alice"));
    data.speaking_state_update(100, user(2, "Bob", "bob"));
    assert_eq!(data.ssrc_to_user(100).unwrap().name, "bob");
    assert_eq!(data.user_to_ssrc(1), Some(100));
    assert_eq!(data.user_to_ssrc(2), Some(100));
    data.speaking_state_update(200, user(2, "Bob", "bob"));
    assert_eq!(data.user_to_ssrc(2), Some(200));
    assert_eq!(data.ssrc_to_user(100).unwrap().name, "bob");
    assert_eq!(data.ssrc_to_user(200).unwrap().name, "bob");
}

#[test]
fn disconnect_forgets_the_participant() {
    let mut data = session();
    data.speaking_state_update(100, user(1, "Alice ALC123X", "alice"));
    data.speaking_state_update(200, user(2, "Bob", "bob"));
    let reaction = data.client_disconnect(1);
    let notice = reaction.notice.unwrap();
    assert_eq!(notice.kind, NoticeKind::Disconnected);
    assert_eq!(notice.user.name, "alice");
    assert!(reaction.control.is_none());
    assert!(data.ssrc_to_user(100).is_none());
    assert_eq!(data.user_to_ssrc(1), None);
    assert_eq!(data.ssrc_to_user(200).unwrap().name, "bob");
}

#[test]
fn disconnect_of_a_stranger_changes_nothing() {
    let mut data = session();
    data.speaking_state_update(100, user(1, "Alice", "alice"));
    let reaction = data.client_disconnect(9);
    assert!(reaction.notice.is_none());
    assert!(reaction.control.is_none());
    assert_eq!(data.ssrc_to_user(100).unwrap().name, "alice");
}

#[test]
fn second_disconnect_finds_nobody() {
    let mut data = session();
    data.speaking_state_update(100, user(1, "Alice", "alice"));
    data.speaking_state_update(100, user(2, "Bob", "bob"));
    assert!(data.client_disconnect(1).notice.is_some());
    let reaction = data.client_disconnect(2);
    assert!(reaction.notice.is_none());
    assert_eq!(data.user_to_ssrc(2), None);
}

#[test]
fn sole_speaker_takes_the_floor_and_loses_it_after_ten_silent_ticks() {
    let mut data = session();
    data.speaking_state_update(100, user(1, "Alice ALC123X", "alice"));
    let talking = speaking(vec![(100, Some(frame(16384)))]);
    let first = data.voice_tick(&talking);
    assert_eq!(data.active_speaker(), Some(100));
    assert_eq!(first.control, Some(USRPPacket::Start(StartPacket { sequence_number: 0 })));
    let notice = first.notice.unwrap();
    assert_eq!(notice.kind, NoticeKind::StartedTransmitting);
    assert_eq!(notice.user.callsign, "ALC123X");
    assert_eq!(first.mono, Some(vec![32768; 960]));
    for _ in 0..5 {
        let next = data.voice_tick(&talking);
        assert!(next.control.is_none());
        assert!(next.notice.is_none());
        assert_eq!(next.mono, Some(vec![32768; 960]));
        assert_eq!(data.active_speaker(), Some(100));
        assert_eq!(data.silence_countdown(), 10);
    }
    let silent = speaking(vec![]);
    for tick in 1..=9u32 {
        let next = data.voice_tick(&silent);
        assert!(next.control.is_none());
        assert!(next.notice.is_none());
        assert!(next.mono.is_none());
        assert_eq!(data.active_speaker(), Some(100));
        assert_eq!(data.silence_countdown(), 10 - tick);
    }
    let last = data.voice_tick(&silent);
    assert_eq!(last.control, Some(USRPPacket::End(EndPacket { sequence_number: 1 })));
    let notice = last.notice.unwrap();
    assert_eq!(notice.kind, NoticeKind::StoppedTransmitting);
    assert_eq!(notice.user.name, "alice");
    assert_eq!(data.active_speaker(), None);
    let after = data.voice_tick(&silent);
    assert!(after.control.is_none());
    assert!(after.notice.is_none());
    assert_eq!(data.active_speaker(), None);
}

#[test]
fn alice_scenario() {
    let mut data = session();
    data.speaking_state_update(100, user(7, "Alice ALC123X", "Alice"));
    let first = data.voice_tick(&speaking(vec![(100, Some(frame(16384)))]));
    assert_eq!(data.active_speaker(), Some(100));
    assert_eq!(first.control, Some(USRPPacket::Start(StartPacket { sequence_number: 0 })));
    let mono = first.mono.unwrap();
    assert_eq!(mono.len(), 960);
    assert!(mono.iter().all(|sum| *sum == 32768));
    let converted = vec![16384i16; 160];
    let audio = data.audio_packet(converted.clone());
    assert_eq!(
        audio,
        Some(USRPPacket::Audio(AudioPacket {
            sequence_number: 1,
            transmit: true,
            audio: converted,
        }))
    );
    let none = speaking(vec![]);
    for tick in 2..=10u32 {
        let reaction = data.voice_tick(&none);
        assert!(reaction.control.is_none());
        assert_eq!(data.silence_countdown(), 11 - tick);
        assert_eq!(data.active_speaker(), Some(100));
    }
    assert_eq!(data.silence_countdown(), 1);
    let release = data.voice_tick(&none);
    assert_eq!(release.control, Some(USRPPacket::End(EndPacket { sequence_number: 2 })));
    assert_eq!(data.silence_countdown(), 0);
    assert_eq!(data.active_speaker(), None);
}

#[test]
fn speaking_without_decoded_audio_counts_as_silence() {
    let mut data = session();
    data.speaking_state_update(100, user(1, "Alice", "alice"));
    let mute = speaking(vec![(100, None)]);
    let first = data.voice_tick(&mute);
    assert_eq!(first.control, Some(USRPPacket::Start(StartPacket { sequence_number: 0 })));
    assert!(first.mono.is_none());
    assert_eq!(data.active_speaker(), Some(100));
    assert_eq!(data.silence_countdown(), 9);
    for _ in 0..8 {
        assert!(data.voice_tick(&mute).control.is_none());
    }
    assert_eq!(data.silence_countdown(), 1);
    let release = data.voice_tick(&mute);
    assert_eq!(release.control, Some(USRPPacket::End(EndPacket { sequence_number: 1 })));
    assert_eq!(data.active_speaker(), None);
}

#[test]
fn audio_resets_the_countdown() {
    let mut data = session();
    data.speaking_state_update(100, user(1, "Alice", "alice"));
    let talking = speaking(vec![(100, Some(frame(1)))]);
    let silent = speaking(vec![]);
    data.voice_tick(&talking);
    for _ in 0..9 {
        data.voice_tick(&silent);
    }
    assert_eq!(data.silence_countdown(), 1);
    let heard = data.voice_tick(&talking);
    assert!(heard.control.is_none());
    assert_eq!(data.silence_countdown(), 10);
    assert_eq!(data.active_speaker(), Some(100));
}

#[test]
fn unknown_speakers_do_not_get_the_floor() {
    let mut data = session();
    data.speaking_state_update(100, user(1, "Alice", "alice"));
    let stranger = speaking(vec![(555, Some(frame(1)))]);
    let reaction = data.voice_tick(&stranger);
    assert!(reaction.control.is_none());
    assert!(reaction.notice.is_none());
    assert!(reaction.mono.is_none());
    assert_eq!(data.active_speaker(), None);
    assert_eq!(data.silence_countdown(), 10);
    assert_eq!(data.candidates(&stranger), Vec::<u32>::new());
}

#[test]
fn candidates_are_the_known_speakers() {
    let mut data = session();
    data.speaking_state_update(100, user(1, "Alice", "alice"));
    data.speaking_state_update(200, user(2, "Bob", "bob"));
    data.speaking_state_update(300, user(3, "Carol", "carol"));
    let tick = speaking(vec![(100, None), (200, Some(frame(1))), (999, Some(frame(2)))]);
    let mut found = data.candidates(&tick);
    found.sort();
    assert_eq!(found, vec![100, 200]);
}

#[test]
fn the_floor_goes_to_one_of_the_candidates() {
    let mut seen_100 = false;
    let mut seen_200 = false;
    for _ in 0..200 {
        let mut data = session();
        data.speaking_state_update(100, user(1, "Alice", "alice"));
        data.speaking_state_update(200, user(2, "Bob", "bob"));
        let tick = speaking(vec![
            (100, Some(frame(1))),
            (200, Some(frame(2))),
            (999, Some(frame(3))),
        ]);
        let reaction = data.voice_tick(&tick);
        assert_eq!(reaction.control, Some(USRPPacket::Start(StartPacket { sequence_number: 0 })));
        match data.active_speaker() {
            Some(100) => {
                seen_100 = true;
                assert_eq!(reaction.mono, Some(vec![2; 960]));
                assert_eq!(reaction.notice.unwrap().user.name, "alice");
            }
            Some(200) => {
                seen_200 = true;
                assert_eq!(reaction.mono, Some(vec![4; 960]));
                assert_eq!(reaction.notice.unwrap().user.name, "bob");
            }
            other => panic!("{:?}", other),
        }
    }
    assert!(seen_100 && seen_200);
}

#[test]
fn the_holder_keeps_the_floor_while_others_speak() {
    let mut data = session();
    data.speaking_state_update(100, user(1, "Alice", "alice"));
    data.speaking_state_update(200, user(2, "Bob", "bob"));
    data.voice_tick_with(&speaking(vec![(100, Some(frame(1)))]), Some(100));
    let both = speaking(vec![(100, Some(frame(3))), (200, Some(frame(5)))]);
    let reaction = data.voice_tick(&both);
    assert!(reaction.control.is_none());
    assert_eq!(reaction.mono, Some(vec![6; 960]));
    assert_eq!(data.active_speaker(), Some(100));
    let other = speaking(vec![(200, Some(frame(5)))]);
    let reaction = data.voice_tick(&other);
    assert!(reaction.control.is_none());
    assert!(reaction.mono.is_none());
    assert_eq!(data.active_speaker(), Some(100));
    assert_eq!(data.silence_countdown(), 9);
}

#[test]
fn chosen_speaker_takes_the_floor() {
    let mut data = session();
    data.speaking_state_update(100, user(1, "Alice", "alice"));
    data.speaking_state_update(200, user(2, "Bob", "bob"));
    let both = speaking(vec![(100, Some(frame(3))), (200, Some(frame(5)))]);
    let reaction = data.voice_tick_with(&both, Some(200));
    assert_eq!(data.active_speaker(), Some(200));
    assert_eq!(reaction.control, Some(USRPPacket::Start(StartPacket { sequence_number: 0 })));
    assert_eq!(reaction.mono, Some(vec![10; 960]));
    assert_eq!(reaction.notice.unwrap().user.name, "bob");
    let idle = speaking(vec![]);
    let mut quiet = session();
    let reaction = quiet.voice_tick_with(&idle, None);
    assert!(reaction.control.is_none());
    assert_eq!(quiet.active_speaker(), None);
}

#[test]
fn only_a_whole_tick_of_audio_goes_to_the_converter() {
    let mut data = session();
    data.speaking_state_update(100, user(1, "Alice", "alice"));
    let short = speaking(vec![(100, Some(vec![1i16; 1918]))]);
    let reaction = data.voice_tick(&short);
    assert!(reaction.control.is_some());
    assert!(reaction.mono.is_none());
    assert_eq!(data.silence_countdown(), 10);
    let long = speaking(vec![(100, Some(vec![1i16; 1922]))]);
    assert!(data.voice_tick(&long).mono.is_none());
    let odd = speaking(vec![(100, Some(vec![1i16; 1921]))]);
    assert_eq!(data.voice_tick(&odd).mono, Some(vec![2; 960]));
    let empty = speaking(vec![(100, Some(Vec::new()))]);
    let reaction = data.voice_tick(&empty);
    assert!(reaction.mono.is_none());
    assert_eq!(data.silence_countdown(), 10);
}

#[test]
fn audio_packet_needs_exactly_one_packet_of_samples() {
    let mut data = session();
    assert_eq!(data.audio_packet(vec![0; 159]), None);
    assert_eq!(data.audio_packet(vec![0; 161]), None);
    assert_eq!(data.audio_packet(Vec::new()), None);
    let samples: Vec<i16> = (0..160).collect();
    assert_eq!(
        data.audio_packet(samples.clone()),
        Some(USRPPacket::Audio(AudioPacket {
            sequence_number: 0,
            transmit: true,
            audio: samples.clone(),
        }))
    );
    assert_eq!(
        data.audio_packet(samples.clone()),
        Some(USRPPacket::Audio(AudioPacket { sequence_number: 1, transmit: true, audio: samples }))
    );
}

#[test]
fn one_sequence_for_all_frames() {
    let mut data = session();
    data.speaking_state_update(100, user(1, "Alice", "alice"));
    let talking = speaking(vec![(100, Some(frame(1)))]);
    let silent = speaking(vec![]);
    let mut sequence = Vec::new();
    for _ in 0..3 {
        let reaction = data.voice_tick(&talking);
        if let Some(USRPPacket::Start(start)) = reaction.control {
            sequence.push(start.sequence_number);
        }
        if let Some(USRPPacket::Audio(audio)) = data.audio_packet(vec![0; 160]) {
            sequence.push(audio.sequence_number);
        }
        for _ in 0..10 {
            if let Some(USRPPacket::End(end)) = data.voice_tick(&silent).control {
                sequence.push(end.sequence_number);
            }
        }
    }
    assert_eq!(sequence, vec![0, 1, 2, 3, 4, 5, 6, 7, 8]);
}

#[test]
fn disconnect_of_the_speaker_releases_the_floor_quietly() {
    let mut data = session();
    data.speaking_state_update(100, user(1, "Alice ALC123X", "alice"));
    data.voice_tick(&speaking(vec![(100, Some(frame(1)))]));
    assert_eq!(data.active_speaker(), Some(100));
    let reaction = data.client_disconnect(1);
    assert_eq!(reaction.notice.unwrap().kind, NoticeKind::Disconnected);
    assert_eq!(data.active_speaker(), Some(100));
    assert_eq!(data.silence_countdown(), 10);
    assert!(data.ssrc_to_user(100).is_none());
    let silent = speaking(vec![]);
    for _ in 0..9 {
        let reaction = data.voice_tick(&silent);
        assert!(reaction.control.is_none());
        assert!(reaction.notice.is_none());
        assert_eq!(data.active_speaker(), Some(100));
    }
    let release = data.voice_tick(&silent);
    assert_eq!(release.control, Some(USRPPacket::End(EndPacket { sequence_number: 1 })));
    assert!(release.notice.is_none());
    assert_eq!(data.active_speaker(), None);
}

#[test]
fn disconnect_on_the_last_silent_tick() {
    let mut data = session();
    data.speaking_state_update(100, user(1, "Alice", "alice"));
    data.voice_tick(&speaking(vec![(100, Some(frame(1)))]));
    let silent = speaking(vec![]);
    for _ in 0..9 {
        data.voice_tick(&silent);
    }
    assert_eq!(data.silence_countdown(), 1);
    data.client_disconnect(1);
    let release = data.voice_tick(&silent);
    assert_eq!(release.control, Some(USRPPacket::End(EndPacket { sequence_number: 1 })));
    assert!(release.notice.is_none());
    assert_eq!(data.active_speaker(), None);
    for _ in 0..20 {
        let reaction = data.voice_tick(&silent);
        assert!(reaction.control.is_none());
        assert_eq!(data.active_speaker(), None);
    }
}

#[test]
fn a_departed_speaker_still_heard_keeps_the_floor() {
    let mut data = session();
    data.speaking_state_update(100, user(1, "Alice", "alice"));
    let talking = speaking(vec![(100, Some(frame(1)))]);
    data.voice_tick(&talking);
    data.client_disconnect(1);
    let reaction = data.voice_tick(&talking);
    assert!(reaction.control.is_none());
    assert!(reaction.notice.is_none());
    assert_eq!(reaction.mono, Some(vec![2; 960]));
    assert_eq!(data.active_speaker(), Some(100));
}

#[test]
fn act_takes_each_kind_of_event() {
    let mut data = session();
    let bound = data.act(BridgeEvent::SpeakingStateUpdate {
        ssrc: 100,
        user: user(1, "Alice ALC123X", "alice"),
    });
    assert_eq!(bound.notice.unwrap().kind, NoticeKind::Connected);
    let started = data.act(BridgeEvent::VoiceTick {
        speaking: speaking(vec![(100, Some(frame(2)))]),
    });
    assert_eq!(started.control, Some(USRPPacket::Start(StartPacket { sequence_number: 0 })));
    assert_eq!(started.mono, Some(vec![4; 960]));
    assert_eq!(data.active_speaker(), Some(100));
    let left = data.act(BridgeEvent::ClientDisconnect { user_id: 1 });
    assert_eq!(left.notice.unwrap().kind, NoticeKind::Disconnected);
    assert!(left.control.is_none());
    assert_eq!(data.active_speaker(), Some(100));
    assert!(data.ssrc_to_user(100).is_none());
}
