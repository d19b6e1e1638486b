use simon::matcher::{MatchPolicy, MatchState, PitchMatcher};
use simon::midi::{ChannelEvent, Incoming, Message};
use simon::note::{
    candidate_pitches, chord, dominant_chord, random_pitch, tonic_chord, Note, PitchClass,
};
use simon::queue::EventQueue;
use simon::session::{
    key_name, random_key, Command, Phase, Scoring, Session, SessionInput, SingleNoteGame,
};

fn note_on(key: u8, vel: u8) -> ChannelEvent {
    ChannelEvent { channel: 0, message: Message::NoteOn { key, vel } }
}

fn note_off(key: u8, vel: u8) -> ChannelEvent {
    ChannelEvent { channel: 0, message: Message::NoteOff { key, vel } }
}

fn queue_of(events: &[ChannelEvent]) -> EventQueue {
    let mut q = EventQueue::new();
    for e in events {
        q.push(*e);
    }
    q
}

const SCALE: [u8; 7] = [0, 2, 4, 5, 7, 9, 11];

#[test]
fn random_pitch_stays_in_window_and_scale() {
    for key in 0u8..12 {
        for (lo, hi) in [(3u8, 5u8), (4, 5), (0, 1), (2, 9)] {
            for _ in 0..200 {
                let p = random_pitch(key, lo, hi);
                assert!(p >= 12 * (lo + 1) + key);
                assert!(p <= 12 * hi + key + 11);
                assert!(SCALE.contains(&((p - key) % 12)) || p == 12 * hi + key);
            }
        }
    }
}

#[test]
fn random_pitch_can_exceed_upper_tonic() {
    let mut above = false;
    for _ in 0..2000 {
        if random_pitch(0, 4, 5) > 60 {
            above = true;
        }
    }
    assert!(above);
}

#[test]
fn candidates_of_one_octave() {
    assert_eq!(candidate_pitches(0, 4, 5), vec![60, 62, 64, 65, 67, 69, 71, 60]);
}

#[test]
fn candidates_of_two_octaves_in_d() {
    assert_eq!(
        candidate_pitches(2, 3, 5),
        vec![50, 52, 54, 55, 57, 59, 61, 62, 64, 66, 67, 69, 71, 73, 62]
    );
}

#[test]
fn strict_press_then_release_matches() {
    let mut q = queue_of(&[note_on(60, 64), note_off(60, 0)]);
    let mut m = PitchMatcher::new(MatchPolicy::Strict);
    assert_eq!(m.read_pitch(&mut q), Some(60));
    assert_eq!(m.state, MatchState::Idle);
    assert!(q.is_empty());
}

#[test]
fn strict_ignores_interleaved_note_on() {
    let mut q = queue_of(&[note_on(60, 64), note_on(61, 64), note_off(60, 0)]);
    let mut m = PitchMatcher::new(MatchPolicy::Strict);
    assert_eq!(m.read_pitch(&mut q), Some(60));
}

#[test]
fn strict_zero_velocity_first_does_not_match() {
    let mut q = queue_of(&[note_on(60, 0)]);
    let mut m = PitchMatcher::new(MatchPolicy::Strict);
    assert_eq!(m.read_pitch(&mut q), None);
    assert_eq!(m.state, MatchState::Idle);
    assert!(q.is_empty());
}

#[test]
fn strict_zero_velocity_note_on_releases() {
    let mut q = queue_of(&[note_on(62, 90), note_on(62, 0), note_on(64, 90)]);
    let mut m = PitchMatcher::new(MatchPolicy::Strict);
    assert_eq!(m.read_pitch(&mut q), Some(62));
    assert_eq!(q.len(), 1);
}

#[test]
fn strict_candidate_survives_empty_queue() {
    let mut q = queue_of(&[note_on(67, 80)]);
    let mut m = PitchMatcher::new(MatchPolicy::Strict);
    assert_eq!(m.read_pitch(&mut q), None);
    assert_eq!(m.state, MatchState::Candidate(67));
    q.push(note_off(67, 0));
    assert_eq!(m.read_pitch(&mut q), Some(67));
}

#[test]
fn relaxed_press_matches_at_once() {
    let mut q = queue_of(&[note_on(60, 64)]);
    let mut m = PitchMatcher::new(MatchPolicy::Relaxed);
    assert_eq!(m.read_pitch(&mut q), Some(60));
    assert!(q.is_empty());
}

#[test]
fn feed_reports_the_match() {
    let mut m = PitchMatcher::new(MatchPolicy::Strict);
    assert_eq!(m.feed(&note_on(70, 10)), None);
    assert_eq!(m.feed(&note_off(70, 10)), Some(70));
    assert_eq!(m.state, MatchState::Matched(70));
}

#[test]
fn queue_keeps_order() {
    let a = note_on(60, 1);
    let b = note_off(61, 2);
    let c = ChannelEvent { channel: 9, message: Message::Other };
    let mut q = EventQueue::new();
    q.push(a);
    q.push(b);
    q.push(c);
    assert_eq!(q.pop(), Some(a));
    assert_eq!(q.pop(), Some(b));
    assert_eq!(q.pop(), Some(c));
    assert_eq!(q.pop(), None);
}

#[test]
fn draining_empty_queue_is_noop() {
    let mut q = EventQueue::new();
    assert_eq!(q.drain(), 0);
    assert!(q.is_empty());
}

#[test]
fn draining_discards_everything() {
    let mut q = queue_of(&[note_on(60, 1), note_on(62, 1)]);
    assert_eq!(q.drain(), 2);
    assert_eq!(q.pop(), None);
}

#[test]
fn receive_queues_note_events() {
    let mut q = EventQueue::new();
    let r = q.receive(&[0x93, 60, 100]);
    let e = ChannelEvent { channel: 3, message: Message::NoteOn { key: 60, vel: 100 } };
    assert_eq!(r, Incoming::Voice(e));
    let r = q.receive(&[0x8F, 61, 0]);
    let f = ChannelEvent { channel: 15, message: Message::NoteOff { key: 61, vel: 0 } };
    assert_eq!(r, Incoming::Voice(f));
    assert_eq!(q.pop(), Some(e));
    assert_eq!(q.pop(), Some(f));
}

#[test]
fn receive_classifies_other_voice_messages() {
    let mut q = EventQueue::new();
    let r = q.receive(&[0xB2, 7, 100]);
    assert_eq!(r, Incoming::Voice(ChannelEvent { channel: 2, message: Message::Other }));
    assert_eq!(q.len(), 1);
}

#[test]
fn receive_skips_system_messages() {
    let mut q = EventQueue::new();
    assert_eq!(q.receive(&[0xF8]), Incoming::System);
    assert_eq!(q.receive(&[0xFE]), Incoming::System);
    assert!(q.is_empty());
}

#[test]
fn receive_drops_malformed_buffers() {
    let mut q = EventQueue::new();
    assert_eq!(q.receive(&[]), Incoming::Malformed);
    assert_eq!(q.receive(&[0x90, 60]), Incoming::Malformed);
    assert_eq!(q.receive(&[0x90, 200, 1]), Incoming::Malformed);
    assert_eq!(q.receive(&[0x80, 60, 0x80]), Incoming::Malformed);
    assert!(q.is_empty());
}

#[test]
fn note_messages_frame_note_on_and_off() {
    let n = Note::new(61, 64, 500);
    assert_eq!(n.on_message(), vec![0x90, 61, 64]);
    assert_eq!(n.off_message(), vec![0x80, 61, 64]);
}

#[test]
fn chord_messages_follow_pitches() {
    let c = tonic_chord(0);
    assert_eq!(
        c.on_messages(),
        vec![vec![0x90, 60, 64], vec![0x90, 64, 64], vec![0x90, 67, 64], vec![0x90, 72, 64]]
    );
    assert_eq!(c.off_messages()[3], vec![0x80, 72, 64]);
}

#[test]
fn chord_on_middle_c() {
    let c = chord(0, &[0, 4, 7, 12], 64, 750);
    assert_eq!(c.pitches, vec![60, 64, 67, 72]);
    assert_eq!(c.velocity, 64);
    assert_eq!(c.duration_ms, 750);
}

#[test]
fn cadence_chords_in_d() {
    assert_eq!(dominant_chord(2).pitches, vec![57, 64, 67, 73]);
    assert_eq!(tonic_chord(2).pitches, vec![62, 66, 69, 74]);
    assert_eq!(dominant_chord(0).duration_ms, 750);
}

#[test]
fn pitch_class_semitones() {
    assert_eq!(PitchClass::C.semitones(), 0);
    assert_eq!(PitchClass::F.semitones(), 5);
    assert_eq!(PitchClass::B.semitones(), 11);
    for _ in 0..50 {
        assert!(SCALE.contains(&PitchClass::random().semitones()));
    }
}

#[test]
fn random_key_is_a_pitch_class() {
    for _ in 0..200 {
        assert!(random_key() <= 11);
    }
}

#[test]
fn key_names() {
    assert_eq!(key_name(0), "C");
    assert_eq!(key_name(6), "Ges");
    assert_eq!(key_name(10), "Bes");
}

#[test]
fn filename_names_key_and_span() {
    let g = SingleNoteGame { key: 0, min_octave: 3, max_octave: 5 };
    assert_eq!(g.filename(), "single-note-C-major-2-octaves.csv");
    let g = SingleNoteGame { key: 3, min_octave: 0, max_octave: 9 };
    assert_eq!(g.filename(), "single-note-Es-major-9-octaves.csv");
}

#[test]
fn draw_secret_uses_the_window() {
    let g = SingleNoteGame { key: 0, min_octave: 4, max_octave: 5 };
    for _ in 0..100 {
        let p = g.draw_secret();
        assert!(candidate_pitches(0, 4, 5).contains(&p));
    }
}

fn listen(q: &mut EventQueue, m: &mut PitchMatcher, bytes: &[&[u8]]) -> u8 {
    for b in bytes {
        q.receive(b);
    }
    m.read_pitch(q).unwrap()
}

#[test]
fn end_to_end_single_trial() {
    let game = SingleNoteGame { key: 0, min_octave: 4, max_octave: 5 };
    let mut s = Session::new(game, Scoring::SingleShot, false, 1);
    let mut q = EventQueue::new();
    let mut m = PitchMatcher::new(MatchPolicy::Strict);

    assert_eq!(s.step(SessionInput::Begin), Command::PlayNote(Note::new(60, 64, 500)));
    assert_eq!(s.step(SessionInput::Played), Command::Listen);
    let heard = listen(&mut q, &mut m, &[&[0x90, 60, 64], &[0x80, 60, 0]]);
    assert_eq!(s.step(SessionInput::Heard(heard)), Command::DrawSecret);

    assert_eq!(s.step(SessionInput::Drawn(60)), Command::PlayNote(Note::new(60, 64, 500)));
    q.receive(&[0x90, 50, 64]);
    assert_eq!(s.step(SessionInput::Played), Command::Drain);
    q.drain();
    assert_eq!(s.step(SessionInput::Drained), Command::Listen);
    let heard = listen(&mut q, &mut m, &[&[0x90, 60, 64], &[0x80, 60, 0]]);
    assert_eq!(heard, 60);
    assert_eq!(s.step(SessionInput::Heard(heard)), Command::PlayCadence);
    assert_eq!(s.step(SessionInput::Played), Command::Finish);

    assert_eq!(s.success_count, 1);
    let r = s.stats_record(1_700_000_000).unwrap();
    assert_eq!(r.success_count, 1);
    assert_eq!(r.trial_count, 1);
    assert_eq!(r.timestamp, 1_700_000_000);
}

#[test]
fn wrong_tonic_is_asked_again() {
    let game = SingleNoteGame { key: 2, min_octave: 3, max_octave: 5 };
    let mut s = Session::new(game, Scoring::SingleShot, true, 2);
    assert_eq!(s.step(SessionInput::Begin), Command::PlayNote(Note::new(62, 64, 500)));
    assert_eq!(s.step(SessionInput::Played), Command::Listen);
    assert_eq!(s.step(SessionInput::Heard(60)), Command::Listen);
    assert_eq!(s.phase, Phase::AwaitTonicAck);
    assert_eq!(s.step(SessionInput::Heard(62)), Command::PlayCadence);
    assert_eq!(s.step(SessionInput::Played), Command::DrawSecret);
}

#[test]
fn single_shot_wrong_answer_ends_trial() {
    let game = SingleNoteGame { key: 0, min_octave: 4, max_octave: 5 };
    let mut s = Session::new(game, Scoring::SingleShot, false, 2);
    s.step(SessionInput::Begin);
    s.step(SessionInput::Played);
    s.step(SessionInput::Heard(60));
    s.step(SessionInput::Drawn(64));
    s.step(SessionInput::Played);
    s.step(SessionInput::Drained);
    assert_eq!(s.step(SessionInput::Heard(65)), Command::DrawSecret);
    assert_eq!(s.trials_done, 1);
    assert_eq!(s.success_count, 0);
}

#[test]
fn until_correct_waits_for_the_right_pitch() {
    let game = SingleNoteGame { key: 0, min_octave: 4, max_octave: 5 };
    let mut s = Session::new(game, Scoring::UntilCorrect, false, 1);
    s.step(SessionInput::Begin);
    s.step(SessionInput::Played);
    s.step(SessionInput::Heard(60));
    s.step(SessionInput::Drawn(67));
    s.step(SessionInput::Played);
    s.step(SessionInput::Drained);
    assert_eq!(s.step(SessionInput::Heard(65)), Command::Listen);
    assert_eq!(s.trials_done, 0);
    assert_eq!(s.step(SessionInput::Heard(67)), Command::PlayCadence);
    assert_eq!(s.trials_done, 1);
    assert_eq!(s.success_count, 0);
}

#[test]
fn unexpected_input_is_ignored() {
    let game = SingleNoteGame { key: 0, min_octave: 4, max_octave: 5 };
    let mut s = Session::new(game, Scoring::SingleShot, false, 1);
    assert_eq!(s.step(SessionInput::Heard(60)), Command::Ignore);
    assert_eq!(s.phase, Phase::Start);
    assert_eq!(s.stats_record(5), None);
}

#[test]
fn out_of_range_secret_is_ignored() {
    let game = SingleNoteGame { key: 0, min_octave: 4, max_octave: 5 };
    let mut s = Session::new(game, Scoring::SingleShot, false, 1);
    s.step(SessionInput::Begin);
    s.step(SessionInput::Played);
    s.step(SessionInput::Heard(60));
    assert_eq!(s.step(SessionInput::Drawn(200)), Command::Ignore);
    assert_eq!(s.phase, Phase::DrawSecret);
}

#[test]
fn zero_trials_go_straight_to_the_closing_cadence() {
    let game = SingleNoteGame { key: 0, min_octave: 4, max_octave: 5 };
    let mut s = Session::new(game, Scoring::SingleShot, false, 0);
    s.step(SessionInput::Begin);
    s.step(SessionInput::Played);
    assert_eq!(s.step(SessionInput::Heard(60)), Command::PlayCadence);
    assert_eq!(s.step(SessionInput::Played), Command::Finish);
    assert_eq!(s.stats_record(9).unwrap().trial_count, 0);
}
