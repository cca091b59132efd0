use crate::audio::{downmix, mono_sums, TICK_SAMPLES};
use crate::usrp::packets::{AudioPacket, EndPacket, Frame, StartPacket, USRPPacket};
use crate::usrp::{next_in_sequence, USRPClient};
use crate::util::{extract_callsign, first_callsign};
use rand::seq::SliceRandom;
use std::collections::HashMap;
use vstd::prelude::*;

verus! {

broadcast use vstd::std_specs::hash::group_hash_axioms;

/// Ticks without audio from the speaker after which the floor is released.
pub const HANGOVER_TICKS: u32 = 10;

/// Samples that the converter must hand back for one tick, at 8 kHz.
pub const PACKET_SAMPLES: usize = 160;

/// A participant of the voice channel, as a mathematical value.
pub struct Participant {
    pub callsign: Seq<char>,
    pub nick: Seq<char>,
    pub name: Seq<char>,
    pub id: u64,
}

/// A participant of the voice channel that the gateway has bound to a
/// source id.
#[derive(Debug)]
pub struct UserData {
    pub callsign: String,
    pub nick: String,
    pub name: String,
    pub id: u64,
}

impl View for UserData {
    type V = Participant;

    open spec fn view(&self) -> Participant {
        Participant {
            callsign: self.callsign@,
            nick: self.nick@,
            name: self.name@,
            id: self.id,
        }
    }
}

impl UserData {
    /// The participant that the gateway's data describe: the nickname is
    /// empty where none is set, the callsign is the first word of the
    /// nickname that can be one, and empty where there is none.
    pub open spec fn describe(id: u64, nick: Option<Seq<char>>, name: Seq<char>) -> Participant {
        let nick = match nick {
            Some(nick) => nick,
            None => Seq::empty(),
        };
        Participant {
            callsign: match first_callsign(nick) {
                Some(word) => word,
                None => Seq::empty(),
            },
            nick,
            name,
            id,
        }
    }

    /// Puts together what is kept about a participant.
    pub fn new(id: u64, nick: Option<String>, name: String) -> (user: Self)
        ensures
            user@ == Self::describe(
                id,
                match nick {
                    Some(nick) => Some(nick@),
                    None => None,
                },
                name@,
            ),
    {
        let nick = match nick {
            Some(nick) => nick,
            None => String::new(),
        };
        let callsign = match extract_callsign(&nick) {
            Some(word) => word,
            None => String::new(),
        };
        UserData { callsign, nick, name, id }
    }

    /// A second value for the same participant.
    pub fn duplicate(&self) -> (user: Self)
        ensures
            user@ == self@,
    {
        UserData {
            callsign: self.callsign.clone(),
            nick: self.nick.clone(),
            name: self.name.clone(),
            id: self.id,
        }
    }
}

/// What is to be written to the log about a participant.
#[derive(Clone, Copy, Debug, PartialEq, Eq, Structural)]
pub enum NoticeKind {
    Connected,
    Disconnected,
    StartedTransmitting,
    StoppedTransmitting,
}

/// A line for the log that names a participant.
#[derive(Debug)]
pub struct Notice {
    pub kind: NoticeKind,
    pub user: UserData,
}

impl View for Notice {
    type V = (NoticeKind, Participant);

    open spec fn view(&self) -> (NoticeKind, Participant) {
        (self.kind, self.user@)
    }
}

/// What the session asks of its surroundings after an event.
#[derive(Debug)]
pub struct Reaction {
    /// A start or end frame to send.
    pub control: Option<USRPPacket>,
    /// A line for the log.
    pub notice: Option<Notice>,
    /// One tick of mono audio for the converter, each value the sum of the
    /// two channels.
    pub mono: Option<Vec<i32>>,
}

/// A reaction as a mathematical value.
pub struct Asked {
    pub control: Option<Frame>,
    pub notice: Option<(NoticeKind, Participant)>,
    pub mono: Option<Seq<i32>>,
}

impl View for Reaction {
    type V = Asked;

    open spec fn view(&self) -> Asked {
        Asked {
            control: match self.control {
                Some(packet) => Some(packet@),
                None => None,
            },
            notice: match self.notice {
                Some(notice) => Some(notice@),
                None => None,
            },
            mono: match self.mono {
                Some(mono) => Some(mono@),
                None => None,
            },
        }
    }
}

/// The reaction that asks for nothing.
pub open spec fn nothing() -> Asked {
    Asked { control: None, notice: None, mono: None }
}

/// The state of a session as a mathematical value.
pub struct Session {
    /// The participants known, by source id.
    pub directory: Map<u32, Participant>,
    /// The source id last bound to each user.
    pub ssrc_of_user: Map<u64, u32>,
    /// The source id that holds the floor, if any does.
    pub active: Option<u32>,
    /// Ticks without audio that the speaker has left.
    pub countdown: u32,
    /// The sequence number of the next frame.
    pub sequence: u32,
}

impl Session {
    /// Whoever holds the floor has between one and ten silent ticks left.
    pub open spec fn wf(self) -> bool {
        self.active is Some ==> 1 <= self.countdown <= HANGOVER_TICKS
    }
}

/// One tick of the voice channel as a mathematical value: for each source
/// id that is speaking, its decoded stereo audio, where there is any.
pub type Heard = Map<u32, Option<Seq<i16>>>;

/// The mathematical value of a tick.
pub open spec fn heard(speaking: Map<u32, Option<Vec<i16>>>) -> Heard {
    speaking.map_values(
        |voice: Option<Vec<i16>>|
            match voice {
                Some(samples) => Some(samples@),
                None => None,
            },
    )
}

/// The decoded audio of a source id in a tick, if the tick has any.
pub open spec fn audio_of(speaking: Heard, ssrc: u32) -> Option<Seq<i16>> {
    if speaking.contains_key(ssrc) {
        speaking[ssrc]
    } else {
        None
    }
}

/// A source id that may take the floor: it is speaking and its participant
/// is known.
pub open spec fn is_candidate(session: Session, speaking: Heard, ssrc: u32) -> bool {
    speaking.contains_key(ssrc) && session.directory.contains_key(ssrc)
}

/// A choice that the session may make when the floor is free: one of the
/// candidates, and none only where there is no candidate.
pub open spec fn is_fair_choice(session: Session, speaking: Heard, chosen: Option<u32>) -> bool {
    match chosen {
        Some(ssrc) => is_candidate(session, speaking, ssrc),
        None => forall|ssrc: u32| !is_candidate(session, speaking, ssrc),
    }
}

/// The mono audio handed to the converter for the audio of a tick: the sums
/// of the channels, where they make up exactly one tick.
pub open spec fn mono_of(audio: Option<Seq<i16>>) -> Option<Seq<i32>> {
    match audio {
        Some(samples) => if mono_sums(samples).len() == TICK_SAMPLES {
            Some(mono_sums(samples))
        } else {
            None
        },
        None => None,
    }
}

/// The gateway binds a source id to a participant.
pub open spec fn bind(session: Session, ssrc: u32, user: Participant) -> (Session, Asked) {
    (
        Session {
            directory: session.directory.insert(ssrc, user),
            ssrc_of_user: session.ssrc_of_user.insert(user.id, ssrc),
            ..session
        },
        Asked { control: None, notice: Some((NoticeKind::Connected, user)), mono: None },
    )
}

/// A user leaves: the source id last bound to the user goes, and with it
/// the participant known under that id. Who holds the floor stays as it is.
pub open spec fn disconnect(session: Session, user_id: u64) -> (Session, Asked) {
    if !session.ssrc_of_user.contains_key(user_id) {
        (session, nothing())
    } else {
        let ssrc = session.ssrc_of_user[user_id];
        let index = session.ssrc_of_user.remove(user_id);
        if !session.directory.contains_key(ssrc) {
            (Session { ssrc_of_user: index, ..session }, nothing())
        } else {
            (
                Session {
                    ssrc_of_user: index,
                    directory: session.directory.remove(ssrc),
                    ..session
                },
                Asked {
                    control: None,
                    notice: Some((NoticeKind::Disconnected, session.directory[ssrc])),
                    mono: None,
                },
            )
        }
    }
}

/// One tick. With the floor free, the chosen source id takes it and a start
/// frame leaves. The holder of the floor keeps it while it is heard, and for
/// nine silent ticks after; the tenth releases the floor and an end frame
/// leaves.
pub open spec fn tick(session: Session, speaking: Heard, chosen: Option<u32>) -> (Session, Asked) {
    match session.active {
        None => match chosen {
            None => (Session { countdown: HANGOVER_TICKS, ..session }, nothing()),
            Some(ssrc) => {
                let audio = audio_of(speaking, ssrc);
                (
                    Session {
                        active: Some(ssrc),
                        countdown: if audio is Some {
                            HANGOVER_TICKS
                        } else {
                            (HANGOVER_TICKS - 1) as u32
                        },
                        sequence: next_in_sequence(session.sequence),
                        ..session
                    },
                    Asked {
                        control: Some(Frame::Start { sequence_number: session.sequence }),
                        notice: if session.directory.contains_key(ssrc) {
                            Some((NoticeKind::StartedTransmitting, session.directory[ssrc]))
                        } else {
                            None
                        },
                        mono: mono_of(audio),
                    },
                )
            },
        },
        Some(ssrc) => match audio_of(speaking, ssrc) {
            Some(samples) => (
                Session { countdown: HANGOVER_TICKS, ..session },
                Asked { control: None, notice: None, mono: mono_of(Some(samples)) },
            ),
            None => if session.countdown <= 1 {
                (
                    Session {
                        active: None,
                        countdown: 0,
                        sequence: next_in_sequence(session.sequence),
                        ..session
                    },
                    Asked {
                        control: Some(Frame::End { sequence_number: session.sequence }),
                        notice: if session.directory.contains_key(ssrc) {
                            Some((NoticeKind::StoppedTransmitting, session.directory[ssrc]))
                        } else {
                            None
                        },
                        mono: None,
                    },
                )
            } else {
                (Session { countdown: (session.countdown - 1) as u32, ..session }, nothing())
            },
        },
    }
}

/// The audio frame that carries what the converter handed back, if it
/// handed back exactly one packet's worth.
pub open spec fn converted(session: Session, samples: Seq<i16>) -> (Session, Option<Frame>) {
    if samples.len() == PACKET_SAMPLES {
        (
            Session { sequence: next_in_sequence(session.sequence), ..session },
            Some(Frame::Audio { sequence_number: session.sequence, transmit: true, audio: samples }),
        )
    } else {
        (session, None)
    }
}

/// What the gateway of the voice channel reports to a session.
pub enum BridgeEvent {
    /// A source id is bound to a participant.
    SpeakingStateUpdate { ssrc: u32, user: UserData },
    /// 20 ms have passed: who is speaking, and their decoded stereo audio.
    VoiceTick { speaking: HashMap<u32, Option<Vec<i16>>> },
    /// A user has left the channel.
    ClientDisconnect { user_id: u64 },
}

/// What an event does to a session, and what the session asks for. Only a
/// tick with the floor free depends on the choice.
pub open spec fn react(session: Session, event: BridgeEvent, chosen: Option<u32>) -> (
    Session,
    Asked,
) {
    match event {
        BridgeEvent::SpeakingStateUpdate { ssrc, user } => bind(session, ssrc, user@),
        BridgeEvent::VoiceTick { speaking } => tick(session, heard(speaking@), chosen),
        BridgeEvent::ClientDisconnect { user_id } => disconnect(session, user_id),
    }
}

/// With the floor free or not, some choice is fair: a candidate where there
/// is one, and none where there is not.
pub proof fn lemma_fair_choice_exists(session: Session, speaking: Heard)
    ensures
        exists|chosen: Option<u32>| is_fair_choice(session, speaking, chosen),
{
    if exists|ssrc: u32| is_candidate(session, speaking, ssrc) {
        let ssrc = choose|ssrc: u32| is_candidate(session, speaking, ssrc);
        assert(is_fair_choice(session, speaking, Some(ssrc)));
    } else {
        assert(is_fair_choice(session, speaking, None));
    }
}

/// `rand::seq::SliceRandom::choose` with the thread's generator: one of the
/// candidates, whichever the generator picks, and none only where there is
/// no candidate.
#[verifier::external_body]
fn choose_speaker(candidates: &Vec<u32>) -> (chosen: Option<u32>)
    ensures
        match chosen {
            Some(ssrc) => candidates@.contains(ssrc),
            None => candidates@.len() == 0,
        },
{
    candidates.choose(&mut rand::thread_rng()).copied()
}

/// Who holds the floor, and for how many silent ticks more.
struct Floor {
    cur_ssrc: Option<u32>,
    timeout_counter: u32,
}

impl Floor {
    /// Whoever holds the floor has between one and ten silent ticks left.
    #[verifier::type_invariant]
    spec fn well_formed(self) -> bool {
        self.cur_ssrc is Some ==> 1 <= self.timeout_counter <= HANGOVER_TICKS
    }
}

/// The state of one bridge: who is known, who holds the floor, and the
/// endpoint's sequence numbers.
pub struct USRPEventHandlerData {
    client: USRPClient,
    user_ssrc_map: HashMap<u64, u32>,
    ssrc_map: HashMap<u32, UserData>,
    floor: Floor,
}

impl View for USRPEventHandlerData {
    type V = Session;

    closed spec fn view(&self) -> Session {
        Session {
            directory: self.ssrc_map@.map_values(|user: UserData| user@),
            ssrc_of_user: self.user_ssrc_map@,
            active: self.floor.cur_ssrc,
            countdown: self.floor.timeout_counter,
            sequence: self.client.next_sequence(),
        }
    }
}

impl USRPEventHandlerData {
    /// A session that knows nobody, with the floor free.
    pub fn new(client: USRPClient) -> (data: Self)
        ensures
            data@ == (Session {
                directory: Map::empty(),
                ssrc_of_user: Map::empty(),
                active: None,
                countdown: 0,
                sequence: client.next_sequence(),
            }),
            data@.wf(),
    {
        let data = USRPEventHandlerData {
            client,
            user_ssrc_map: HashMap::new(),
            ssrc_map: HashMap::new(),
            floor: Floor { cur_ssrc: None, timeout_counter: 0 },
        };
        assert(data@.directory =~= Map::empty());
        data
    }

    /// The source id that holds the floor, if any does.
    pub fn active_speaker(&self) -> (active: Option<u32>)
        ensures
            active == self@.active,
            self@.wf(),
    {
        proof {
            use_type_invariant(&self.floor);
        }
        self.floor.cur_ssrc
    }

    /// Ticks without audio that the speaker has left.
    pub fn silence_countdown(&self) -> (countdown: u32)
        ensures
            countdown == self@.countdown,
            self@.wf(),
    {
        proof {
            use_type_invariant(&self.floor);
        }
        self.floor.timeout_counter
    }

    /// The participant known under a source id.
    pub fn ssrc_to_user(&self, ssrc: u32) -> (user: Option<&UserData>)
        ensures
            match user {
                Some(user) => self@.directory.contains_key(ssrc) && self@.directory[ssrc]
                    == user@,
                None => !self@.directory.contains_key(ssrc),
            },
    {
        self.ssrc_map.get(&ssrc)
    }

    /// The source ids that may take the floor in a tick, each once.
    pub fn candidates(&self, speaking: &HashMap<u32, Option<Vec<i16>>>) -> (found: Vec<u32>)
        ensures
            forall|ssrc: u32|
                found@.contains(ssrc) <==> #[trigger] is_candidate(self@, heard(speaking@), ssrc),
            found@.no_duplicates(),
    {
        let mut found: Vec<u32> = Vec::new();
        for ssrc in it: speaking.keys()
            invariant
                it.seq().unref().to_set() == speaking@.dom(),
                it.seq().no_duplicates(),
                found@.no_duplicates(),
                forall|j: int|
                    0 <= j < found@.len() ==> self.ssrc_map@.contains_key(#[trigger] found@[j])
                        && speaking@.contains_key(found@[j]) && exists|k: int|
                        0 <= k < it.index() && *#[trigger] it.seq()[k] == found@[j],
                forall|k: int|
                    0 <= k < it.index() && self.ssrc_map@.contains_key(*#[trigger] it.seq()[k])
                        ==> found@.contains(*it.seq()[k]),
                it.index() == it.seq().len() ==> forall|id: u32|
                    speaking@.contains_key(id) && self.ssrc_map@.contains_key(id)
                        ==> #[trigger] found@.contains(id),
        {
            let ghost before = found@;
            let ghost keys = it.seq();
            let ghost at = it.index();
            assert(*ssrc == *keys[at]);
            if self.ssrc_map.contains_key(ssrc) {
                assert forall|j: int| 0 <= j < before.len() implies before[j] != *ssrc by {
                    let k = choose|k: int| 0 <= k < at && *#[trigger] keys[k] == before[j];
                    assert(keys[k] != keys[at]);
                }
                found.push(*ssrc);
                assert(found@[before.len() as int] == *ssrc);
                assert(speaking@.contains_key(*ssrc)) by {
                    assert(keys.unref()[at] == *ssrc);
                    assert(keys.unref().to_set().contains(*ssrc));
                }
                assert forall|k: int|
                    0 <= k < at + 1 && self.ssrc_map@.contains_key(
                        *#[trigger] keys[k],
                    ) implies found@.contains(*keys[k]) by {
                    if k < at {
                        let j = choose|j: int| 0 <= j < before.len() && before[j] == *keys[k];
                        assert(found@[j] == *keys[k]);
                    }
                }
            }
            assert(at + 1 == keys.len() ==> forall|id: u32|
                speaking@.contains_key(id) && self.ssrc_map@.contains_key(id)
                    ==> #[trigger] found@.contains(id)) by {
                if at + 1 == keys.len() {
                    assert forall|id: u32|
                        speaking@.contains_key(id) && self.ssrc_map@.contains_key(
                            id,
                        ) implies #[trigger] found@.contains(id) by {
                        assert(keys.unref().to_set().contains(id));
                        let k = choose|k: int|
                            0 <= k < keys.unref().len() && keys.unref()[k] == id;
                        assert(*keys[k] == id);
                    }
                }
            }
        }
        assert forall|ssrc: u32| found@.contains(ssrc) implies #[trigger] is_candidate(
            self@,
            heard(speaking@),
            ssrc,
        ) by {
            let j = choose|j: int| 0 <= j < found@.len() && found@[j] == ssrc;
            assert(self.ssrc_map@.contains_key(found@[j]) && speaking@.contains_key(found@[j]));
        }
        found
    }

    /// The source id last bound to a user.
    pub fn user_to_ssrc(&self, user_id: u64) -> (ssrc: Option<u32>)
        ensures
            match ssrc {
                Some(ssrc) => self@.ssrc_of_user.contains_key(user_id)
                    && self@.ssrc_of_user[user_id] == ssrc,
                None => !self@.ssrc_of_user.contains_key(user_id),
            },
    {
        match self.user_ssrc_map.get(&user_id) {
            Some(ssrc) => Some(*ssrc),
            None => None,
        }
    }

    /// The gateway binds a source id to a participant: the participant is
    /// known under that id from now on, in place of whoever was.
    pub fn speaking_state_update(&mut self, ssrc: u32, user: UserData) -> (reaction: Reaction)
        ensures
            (final(self)@, reaction@) == bind(old(self)@, ssrc, user@),
            final(self)@.wf(),
    {
        proof {
            use_type_invariant(&self.floor);
        }
        let notice = Notice { kind: NoticeKind::Connected, user: user.duplicate() };
        let id = user.id;
        let ghost participant = user@;
        self.ssrc_map.insert(ssrc, user);
        self.user_ssrc_map.insert(id, ssrc);
        assert(self@.directory =~= old(self)@.directory.insert(ssrc, participant));
        Reaction { control: None, notice: Some(notice), mono: None }
    }

    /// A user leaves the channel. Whoever holds the floor keeps it, also
    /// the user that left: the ticks that follow release it.
    pub fn client_disconnect(&mut self, user_id: u64) -> (reaction: Reaction)
        ensures
            (final(self)@, reaction@) == disconnect(old(self)@, user_id),
            final(self)@.wf(),
    {
        proof {
            use_type_invariant(&self.floor);
        }
        let ssrc = match self.user_ssrc_map.remove(&user_id) {
            Some(ssrc) => ssrc,
            None => {
                assert(self@.ssrc_of_user =~= old(self)@.ssrc_of_user);
                return Reaction { control: None, notice: None, mono: None };
            },
        };
        let user = match self.ssrc_map.remove(&ssrc) {
            Some(user) => user,
            None => {
                assert(self@.directory =~= old(self)@.directory);
                return Reaction { control: None, notice: None, mono: None };
            },
        };
        assert(self@.directory =~= old(self)@.directory.remove(ssrc));
        Reaction {
            control: None,
            notice: Some(Notice { kind: NoticeKind::Disconnected, user }),
            mono: None,
        }
    }

    /// The line for the log about the participant known under a source id,
    /// where one is known.
    fn notice_about(&self, kind: NoticeKind, ssrc: u32) -> (notice: Option<Notice>)
        ensures
            match notice {
                Some(notice) => self@.directory.contains_key(ssrc) && notice@ == (
                    kind,
                    self@.directory[ssrc],
                ),
                None => !self@.directory.contains_key(ssrc),
            },
    {
        match self.ssrc_map.get(&ssrc) {
            Some(user) => Some(Notice { kind, user: user.duplicate() }),
            None => None,
        }
    }

    /// One tick, with the choice made by the caller. The choice counts only
    /// while the floor is free, and must be fair then.
    pub fn voice_tick_with(
        &mut self,
        speaking: &HashMap<u32, Option<Vec<i16>>>,
        chosen: Option<u32>,
    ) -> (reaction: Reaction)
        requires
            old(self)@.active is None ==> is_fair_choice(old(self)@, heard(speaking@), chosen),
        ensures
            (final(self)@, reaction@) == tick(old(self)@, heard(speaking@), chosen),
            final(self)@.wf(),
    {
        proof {
            use_type_invariant(&self.floor);
        }
        let is_previously_transmitting = self.floor.cur_ssrc.is_some();
        if !is_previously_transmitting {
            self.floor = match chosen {
                Some(ssrc) => Floor { cur_ssrc: Some(ssrc), timeout_counter: HANGOVER_TICKS },
                None => Floor { cur_ssrc: None, timeout_counter: HANGOVER_TICKS },
            };
        }
        let mut mono: Option<Vec<i32>> = None;
        let mut notice: Option<Notice> = None;
        match self.floor.cur_ssrc {
            Some(cur_ssrc) => {
                let audio_data: Option<&Vec<i16>> = match speaking.get(&cur_ssrc) {
                    Some(voice) => match voice {
                        Some(samples) => Some(samples),
                        None => None,
                    },
                    None => None,
                };
                assert(match audio_data {
                    Some(samples) => audio_of(heard(speaking@), cur_ssrc) == Some(samples@),
                    None => audio_of(heard(speaking@), cur_ssrc) is None,
                });
                match audio_data {
                    Some(samples) => {
                        self.floor = Floor {
                            cur_ssrc: Some(cur_ssrc),
                            timeout_counter: HANGOVER_TICKS,
                        };
                        let sums = downmix(samples.as_slice());
                        if sums.len() == TICK_SAMPLES {
                            mono = Some(sums);
                        }
                    },
                    None => {
                        let remaining = self.floor.timeout_counter - 1;
                        if remaining == 0 {
                            notice = self.notice_about(NoticeKind::StoppedTransmitting, cur_ssrc);
                            self.floor = Floor { cur_ssrc: None, timeout_counter: 0 };
                        } else {
                            self.floor = Floor {
                                cur_ssrc: Some(cur_ssrc),
                                timeout_counter: remaining,
                            };
                        }
                    },
                }
            },
            None => {},
        }
        let control = match self.floor.cur_ssrc {
            Some(cur_ssrc) => {
                if !is_previously_transmitting {
                    notice = self.notice_about(NoticeKind::StartedTransmitting, cur_ssrc);
                    Some(
                        USRPPacket::Start(
                            StartPacket {
                                sequence_number: self.client.get_and_increment_sequence_number(),
                            },
                        ),
                    )
                } else {
                    None
                }
            },
            None => {
                if is_previously_transmitting {
                    Some(
                        USRPPacket::End(
                            EndPacket {
                                sequence_number: self.client.get_and_increment_sequence_number(),
                            },
                        ),
                    )
                } else {
                    None
                }
            },
        };
        proof {
            use_type_invariant(&self.floor);
        }
        assert(self@.directory =~= old(self)@.directory);
        Reaction { control, notice, mono }
    }

    /// One tick. With the floor free, one of the candidates takes it,
    /// whichever the random generator picks.
    pub fn voice_tick(&mut self, speaking: &HashMap<u32, Option<Vec<i16>>>) -> (reaction: Reaction)
        ensures
            exists|chosen: Option<u32>|
                is_fair_choice(old(self)@, heard(speaking@), chosen) && (final(self)@, reaction@)
                    == #[trigger] tick(old(self)@, heard(speaking@), chosen),
            final(self)@.wf(),
    {
        let chosen = if self.floor.cur_ssrc.is_none() {
            let active_ssrcs = self.candidates(speaking);
            let chosen = choose_speaker(&active_ssrcs);
            assert(is_fair_choice(self@, heard(speaking@), chosen)) by {
                match chosen {
                    Some(ssrc) => {},
                    None => {
                        assert forall|ssrc: u32|
                            !is_candidate(self@, heard(speaking@), ssrc) by {
                            if is_candidate(self@, heard(speaking@), ssrc) {
                                assert(active_ssrcs@.contains(ssrc));
                            }
                        }
                    },
                }
            }
            chosen
        } else {
            None
        };
        let reaction = self.voice_tick_with(speaking, chosen);
        proof {
            if old(self)@.active is None {
                assert(is_fair_choice(old(self)@, heard(speaking@), chosen));
            } else {
                lemma_fair_choice_exists(old(self)@, heard(speaking@));
                let fair = choose|fair: Option<u32>|
                    is_fair_choice(old(self)@, heard(speaking@), fair);
                assert(tick(old(self)@, heard(speaking@), fair) == tick(
                    old(self)@,
                    heard(speaking@),
                    chosen,
                ));
            }
        }
        reaction
    }

    /// Wraps what the converter handed back for a tick in an audio frame
    /// with the transmit flag up, where it is exactly one frame's worth.
    /// Anything else is dropped and uses up no sequence number.
    pub fn audio_packet(&mut self, samples: Vec<i16>) -> (packet: Option<USRPPacket>)
        ensures
            final(self)@ == converted(old(self)@, samples@).0,
            match packet {
                Some(packet) => Some(packet@),
                None => None,
            } == converted(old(self)@, samples@).1,
            final(self)@.wf(),
    {
        proof {
            use_type_invariant(&self.floor);
        }
        if samples.len() == PACKET_SAMPLES {
            let sequence_number = self.client.get_and_increment_sequence_number();
            assert(self@.directory =~= old(self)@.directory);
            Some(USRPPacket::Audio(AudioPacket { sequence_number, transmit: true, audio: samples }))
        } else {
            None
        }
    }

    /// Takes one event from the gateway and says what is to be done.
    pub fn act(&mut self, event: BridgeEvent) -> (reaction: Reaction)
        ensures
            exists|chosen: Option<u32>|
                (event matches BridgeEvent::VoiceTick { speaking } ==> is_fair_choice(
                    old(self)@,
                    heard(speaking@),
                    chosen,
                )) && (final(self)@, reaction@) == #[trigger] react(old(self)@, event, chosen),
            final(self)@.wf(),
    {
        match event {
            BridgeEvent::SpeakingStateUpdate { ssrc, user } => {
                let reaction = self.speaking_state_update(ssrc, user);
                assert((self@, reaction@) == react(old(self)@, event, None));
                reaction
            },
            BridgeEvent::VoiceTick { speaking } => {
                let reaction = self.voice_tick(&speaking);
                proof {
                    let chosen = choose|chosen: Option<u32>|
                        is_fair_choice(old(self)@, heard(speaking@), chosen) && (self@, reaction@)
                            == #[trigger] tick(old(self)@, heard(speaking@), chosen);
                    assert((self@, reaction@) == react(old(self)@, event, chosen));
                }
                reaction
            },
            BridgeEvent::ClientDisconnect { user_id } => {
                let reaction = self.client_disconnect(user_id);
                assert((self@, reaction@) == react(old(self)@, event, None));
                reaction
            },
        }
    }
}

} // verus!
