use crate::bridge::{
    audio_of, bind, disconnect, is_candidate, is_fair_choice, nothing, tick, Heard, NoticeKind,
    Participant, Session, HANGOVER_TICKS,
};
use crate::usrp::next_in_sequence;
use crate::usrp::packets::Frame;
use vstd::prelude::*;

verus! {

/// The session after a run of ticks, each with the choice made at it.
pub open spec fn run(session: Session, ticks: Seq<(Heard, Option<u32>)>) -> Session
    decreases ticks.len(),
{
    if ticks.len() == 0 {
        session
    } else {
        tick(run(session, ticks.drop_last()), ticks.last().0, ticks.last().1).0
    }
}

/// The start and end frames that leave during a run of ticks, in order.
pub open spec fn frames_sent(session: Session, ticks: Seq<(Heard, Option<u32>)>) -> Seq<Frame>
    decreases ticks.len(),
{
    if ticks.len() == 0 {
        Seq::empty()
    } else {
        let earlier = frames_sent(session, ticks.drop_last());
        match tick(run(session, ticks.drop_last()), ticks.last().0, ticks.last().1).1.control {
            Some(frame) => earlier.push(frame),
            None => earlier,
        }
    }
}

/// A tick leaves the directory and the index of users as they are, and
/// keeps a session well formed.
pub proof fn lemma_tick_keeps(session: Session, speaking: Heard, chosen: Option<u32>)
    requires
        session.wf(),
    ensures
        tick(session, speaking, chosen).0.wf(),
        tick(session, speaking, chosen).0.directory == session.directory,
        tick(session, speaking, chosen).0.ssrc_of_user == session.ssrc_of_user,
{
}

/// A frame leaves at a tick exactly when the floor changes hands: a start
/// frame when it is taken, an end frame when it is released. Each carries
/// the sequence number that was next, and uses it up.
pub proof fn lemma_frames_mark_edges(session: Session, speaking: Heard, chosen: Option<u32>)
    requires
        session.wf(),
    ensures
        ({
            let (after, asked) = tick(session, speaking, chosen);
            &&& (session.active is None && after.active is Some) <==> asked.control == Some(
                Frame::Start { sequence_number: session.sequence },
            )
            &&& (session.active is Some && after.active is None) <==> asked.control == Some(
                Frame::End { sequence_number: session.sequence },
            )
            &&& (session.active is Some) == (after.active is Some) <==> asked.control is None
            &&& after.sequence == if asked.control is Some {
                next_in_sequence(session.sequence)
            } else {
                session.sequence
            }
            &&& session.active is Some && after.active is Some ==> after.active == session.active
        }),
{
}

/// Whoever takes the floor at a tick is speaking at that tick, and its
/// participant is known.
pub proof fn lemma_floor_goes_to_known_speaker(
    session: Session,
    speaking: Heard,
    chosen: Option<u32>,
)
    requires
        session.active is None,
        is_fair_choice(session, speaking, chosen),
    ensures
        tick(session, speaking, chosen).0.active == chosen,
        tick(session, speaking, chosen).0.active matches Some(ssrc) ==> is_candidate(
            session,
            speaking,
            ssrc,
        ) && tick(session, speaking, chosen).1.notice == Some(
            (NoticeKind::StartedTransmitting, session.directory[ssrc]),
        ),
        chosen is None ==> tick(session, speaking, chosen).1 == nothing(),
{
}

/// With the floor free and one participant alone speaking, the first tick
/// gives that participant the floor and sends a start frame.
pub proof fn lemma_sole_speaker_takes_floor(
    session: Session,
    speaking: Heard,
    chosen: Option<u32>,
    ssrc: u32,
)
    requires
        session.active is None,
        is_candidate(session, speaking, ssrc),
        forall|other: u32| is_candidate(session, speaking, other) ==> other == ssrc,
        is_fair_choice(session, speaking, chosen),
    ensures
        chosen == Some(ssrc),
        tick(session, speaking, chosen).0.active == Some(ssrc),
        tick(session, speaking, chosen).0.wf(),
        tick(session, speaking, chosen).1.control == Some(
            Frame::Start { sequence_number: session.sequence },
        ),
        tick(session, speaking, chosen).1.notice matches Some(notice)
            && notice.1 == session.directory[ssrc],
{
}

/// While the holder of the floor is heard at every tick, it keeps the floor
/// with the full hangover ahead, and no start or end frame leaves.
pub proof fn lemma_heard_keeps_floor(
    session: Session,
    ssrc: u32,
    ticks: Seq<(Heard, Option<u32>)>,
)
    requires
        session.active == Some(ssrc),
        forall|i: int| 0 <= i < ticks.len() ==> audio_of(#[trigger] ticks[i].0, ssrc) is Some,
    ensures
        run(session, ticks) == if ticks.len() == 0 {
            session
        } else {
            Session { countdown: HANGOVER_TICKS, ..session }
        },
        frames_sent(session, ticks) == Seq::<Frame>::empty(),
    decreases ticks.len(),
{
    if ticks.len() > 0 {
        let earlier = ticks.drop_last();
        assert forall|i: int| 0 <= i < earlier.len() implies audio_of(
            #[trigger] earlier[i].0,
            ssrc,
        ) is Some by {
            assert(earlier[i] == ticks[i]);
        }
        lemma_heard_keeps_floor(session, ssrc, earlier);
        assert(audio_of(ticks[ticks.len() - 1].0, ssrc) is Some);
    }
}

/// While the holder of the floor is not heard, it keeps the floor for as
/// many ticks as its countdown says, less one, and nothing leaves. The tick
/// after those releases the floor and sends the one end frame: with the full
/// hangover ahead, that is the tenth silent tick.
pub proof fn lemma_silence_releases_floor(
    session: Session,
    ssrc: u32,
    ticks: Seq<(Heard, Option<u32>)>,
)
    requires
        session.wf(),
        session.active == Some(ssrc),
        ticks.len() <= session.countdown,
        forall|i: int| 0 <= i < ticks.len() ==> audio_of(#[trigger] ticks[i].0, ssrc) is None,
    ensures
        ticks.len() < session.countdown ==> run(session, ticks) == (Session {
            countdown: (session.countdown - ticks.len()) as u32,
            ..session
        }) && frames_sent(session, ticks) == Seq::<Frame>::empty(),
        ticks.len() == session.countdown ==> run(session, ticks) == (Session {
            active: None,
            countdown: 0,
            sequence: next_in_sequence(session.sequence),
            ..session
        }) && frames_sent(session, ticks) == seq![
            Frame::End { sequence_number: session.sequence },
        ],
    decreases ticks.len(),
{
    if ticks.len() > 0 {
        let earlier = ticks.drop_last();
        assert forall|i: int| 0 <= i < earlier.len() implies audio_of(
            #[trigger] earlier[i].0,
            ssrc,
        ) is None by {
            assert(earlier[i] == ticks[i]);
        }
        lemma_silence_releases_floor(session, ssrc, earlier);
        assert(audio_of(ticks[ticks.len() - 1].0, ssrc) is None);
        if ticks.len() == session.countdown {
            assert(frames_sent(session, ticks) =~= seq![
                Frame::End { sequence_number: session.sequence },
            ]);
        }
    } else {
        assert(run(session, ticks) == Session { countdown: session.countdown, ..session });
    }
}

/// Binding a participant changes neither who holds the floor nor the
/// countdown nor the sequence numbers.
pub proof fn lemma_bind_keeps_floor(session: Session, ssrc: u32, user: Participant)
    ensures
        bind(session, ssrc, user).0.active == session.active,
        bind(session, ssrc, user).0.countdown == session.countdown,
        bind(session, ssrc, user).0.sequence == session.sequence,
        bind(session, ssrc, user).0.directory.contains_key(ssrc),
        bind(session, ssrc, user).0.directory[ssrc] == user,
        bind(session, ssrc, user).1.control is None,
{
}

/// A user that leaves takes along the participant known under the user's
/// source id, and nothing else: the floor stays with its holder, also where
/// the holder is the one that left, and no frame leaves.
pub proof fn lemma_disconnect_keeps_floor(session: Session, user_id: u64)
    ensures
        disconnect(session, user_id).0.active == session.active,
        disconnect(session, user_id).0.countdown == session.countdown,
        disconnect(session, user_id).0.sequence == session.sequence,
        disconnect(session, user_id).0.wf() == session.wf(),
        disconnect(session, user_id).1.control is None,
        !disconnect(session, user_id).0.ssrc_of_user.contains_key(user_id),
        session.ssrc_of_user.contains_key(user_id) ==> !disconnect(
            session,
            user_id,
        ).0.directory.contains_key(session.ssrc_of_user[user_id]),
{
}

/// When the holder of the floor is no longer known, a tick writes nothing
/// about it to the log. The floor is released as for anyone else, and the
/// end frame leaves when it is.
pub proof fn lemma_unknown_holder_leaves_quietly(
    session: Session,
    speaking: Heard,
    chosen: Option<u32>,
    ssrc: u32,
)
    requires
        session.wf(),
        session.active == Some(ssrc),
        !session.directory.contains_key(ssrc),
    ensures
        tick(session, speaking, chosen).1.notice is None,
        tick(session, speaking, chosen).0.wf(),
        tick(session, speaking, chosen).0.active is None <==> audio_of(speaking, ssrc) is None
            && session.countdown == 1,
        tick(session, speaking, chosen).0.active is None ==> tick(
            session,
            speaking,
            chosen,
        ).1.control == Some(Frame::End { sequence_number: session.sequence }),
{
}

/// After the holder of the floor has left the channel, the ticks that
/// follow, in which it is not heard, release the floor when the countdown
/// is used up, with one end frame and no line in the log at any of them.
pub proof fn lemma_floor_released_after_disconnect(
    session: Session,
    user_id: u64,
    ssrc: u32,
    ticks: Seq<(Heard, Option<u32>)>,
)
    requires
        session.wf(),
        session.active == Some(ssrc),
        session.ssrc_of_user.contains_key(user_id),
        session.ssrc_of_user[user_id] == ssrc,
        ticks.len() == session.countdown,
        forall|i: int| 0 <= i < ticks.len() ==> audio_of(#[trigger] ticks[i].0, ssrc) is None,
    ensures
        run(disconnect(session, user_id).0, ticks).active is None,
        frames_sent(disconnect(session, user_id).0, ticks) == seq![
            Frame::End { sequence_number: session.sequence },
        ],
        forall|n: int|
            0 <= n < ticks.len() ==> tick(
                #[trigger] run(disconnect(session, user_id).0, ticks.take(n)),
                ticks[n].0,
                ticks[n].1,
            ).1.notice is None,
{
    let left = disconnect(session, user_id).0;
    lemma_disconnect_keeps_floor(session, user_id);
    lemma_silence_releases_floor(left, ssrc, ticks);
    assert forall|n: int| 0 <= n < ticks.len() implies tick(
        #[trigger] run(left, ticks.take(n)),
        ticks[n].0,
        ticks[n].1,
    ).1.notice is None by {
        let earlier = ticks.take(n);
        assert forall|i: int| 0 <= i < earlier.len() implies audio_of(
            #[trigger] earlier[i].0,
            ssrc,
        ) is None by {
            assert(earlier[i] == ticks[i]);
        }
        lemma_silence_releases_floor(left, ssrc, earlier);
        lemma_unknown_holder_leaves_quietly(run(left, earlier), ticks[n].0, ticks[n].1, ssrc);
    }
}

} // verus!
