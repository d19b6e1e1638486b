//! The session controller: tonic acknowledgement, cadences, scored trials and the tally.
use crate::note::{
    is_seven_bit, pitch_candidates, random_pitch, Note, MIDDLE_C, NOTE_MILLIS, PHRASE_VELOCITY,
};
use rand::Rng;
use vstd::prelude::*;

verus! {

/// Relies on rand's `Rng::gen_range` on the thread-local generator: a value of the half-open
/// range `[0, n)`, which must not be empty.
#[verifier::external_body]
fn random_below(n: u8) -> (r: u8)
    requires
        n > 0,
    ensures
        r < n,
{
    rand::thread_rng().gen_range(0..n)
}

/// A key drawn uniformly from the twelve.
pub fn random_key() -> (r: u8)
    ensures
        r <= 11,
{
    random_below(12)
}

/// A single-note game: the key and the window of octaves `[min_octave, max_octave)` that the
/// secret pitches are drawn from.
#[derive(PartialEq, Eq, Structural, Clone, Copy, Debug)]
pub struct SingleNoteGame {
    pub key: u8,
    pub min_octave: u8,
    pub max_octave: u8,
}

impl SingleNoteGame {
    /// The key is a pitch class, the window is not empty, and every candidate is a MIDI pitch.
    pub open spec fn wf(&self) -> bool {
        &&& self.key <= 11
        &&& self.min_octave < self.max_octave
        &&& 12 * self.max_octave + self.key + 11 <= 127
    }

    /// The pitch of the tonic in the middle octave.
    pub open spec fn spec_tonic_pitch(&self) -> int {
        MIDDLE_C + self.key
    }

    /// The name of the file that this game's statistics are appended to: the key and the
    /// number of octaves in the window.
    pub fn filename(&self) -> (r: String)
        requires
            self.wf(),
        ensures
            r@ == stats_filename(*self),
    {
        let mut r = String::from_str("single-note-");
        r.append(key_name(self.key));
        r.append("-major-");
        push_decimal(&mut r, self.max_octave - self.min_octave);
        r.append("-octaves.csv");
        r
    }

    /// A secret pitch drawn uniformly from the game's candidates.
    pub fn draw_secret(&self) -> (r: u8)
        requires
            self.wf(),
        ensures
            pitch_candidates(self.key as int, self.min_octave as int, self.max_octave as int).contains(
                r as int,
            ),
            r < 128,
    {
        random_pitch(self.key, self.min_octave, self.max_octave)
    }
}


/// The name of the major key on pitch class `key`.
pub open spec fn key_label(key: int) -> Seq<char> {
    if key == 0 {
        seq!['C']
    } else if key == 1 {
        seq!['D', 'e', 's']
    } else if key == 2 {
        seq!['D']
    } else if key == 3 {
        seq!['E', 's']
    } else if key == 4 {
        seq!['E']
    } else if key == 5 {
        seq!['F']
    } else if key == 6 {
        seq!['G', 'e', 's']
    } else if key == 7 {
        seq!['G']
    } else if key == 8 {
        seq!['A', 'e', 's']
    } else if key == 9 {
        seq!['A']
    } else if key == 10 {
        seq!['B', 'e', 's']
    } else {
        seq!['B']
    }
}

/// The name of the major key on pitch class `key`.
pub fn key_name(key: u8) -> (r: &'static str)
    requires
        key <= 11,
    ensures
        r@ == key_label(key as int),
{
    let r = match key {
        0 => "C",
        1 => "Des",
        2 => "D",
        3 => "Es",
        4 => "E",
        5 => "F",
        6 => "Ges",
        7 => "G",
        8 => "Aes",
        9 => "A",
        10 => "Bes",
        _ => "B",
    };
    proof {
        reveal_strlit("C");
        reveal_strlit("Des");
        reveal_strlit("D");
        reveal_strlit("Es");
        reveal_strlit("E");
        reveal_strlit("F");
        reveal_strlit("Ges");
        reveal_strlit("G");
        reveal_strlit("Aes");
        reveal_strlit("A");
        reveal_strlit("Bes");
        reveal_strlit("B");
    }
    assert(r@ =~= key_label(key as int));
    r
}

/// The decimal digit `d`.
pub open spec fn digit_char(d: int) -> char {
    seq!['0', '1', '2', '3', '4', '5', '6', '7', '8', '9'][d]
}

/// The decimal numeral of `n`, without leading zeros.
pub open spec fn decimal(n: nat) -> Seq<char>
    decreases n,
{
    if n < 10 {
        seq![digit_char(n as int)]
    } else {
        decimal(n / 10).push(digit_char((n % 10) as int))
    }
}

fn digit_str(d: u8) -> (r: &'static str)
    requires
        d < 10,
    ensures
        r@ == seq![digit_char(d as int)],
{
    let r = match d {
        0 => "0",
        1 => "1",
        2 => "2",
        3 => "3",
        4 => "4",
        5 => "5",
        6 => "6",
        7 => "7",
        8 => "8",
        _ => "9",
    };
    proof {
        reveal_strlit("0");
        reveal_strlit("1");
        reveal_strlit("2");
        reveal_strlit("3");
        reveal_strlit("4");
        reveal_strlit("5");
        reveal_strlit("6");
        reveal_strlit("7");
        reveal_strlit("8");
        reveal_strlit("9");
    }
    assert(r@ =~= seq![digit_char(d as int)]);
    r
}

/// Appends the decimal numeral of `n` to `s`.
fn push_decimal(s: &mut String, n: u8)
    ensures
        final(s)@ == old(s)@ + decimal(n as nat),
{
    if n >= 100 {
        s.append(digit_str(n / 100));
    }
    if n >= 10 {
        s.append(digit_str((n / 10) % 10));
    }
    s.append(digit_str(n % 10));
    proof {
        let m = n as nat;
        if m >= 100 {
            assert(decimal(m / 100) == seq![digit_char((m / 100) as int)]);
            assert(decimal(m / 10) == decimal(m / 100).push(digit_char((m / 10 % 10) as int)));
            assert(m / 10 / 10 == m / 100);
        } else if m >= 10 {
            assert(decimal(m / 10) == seq![digit_char((m / 10) as int)]);
            assert(m / 10 % 10 == m / 10);
        }
        assert(final(s)@ =~= old(s)@ + decimal(m));
    }
}

/// The name of the file that a game's statistics are appended to.
pub open spec fn stats_filename(g: SingleNoteGame) -> Seq<char> {
    "single-note-"@ + key_label(g.key as int) + "-major-"@ + decimal(
        (g.max_octave - g.min_octave) as nat,
    ) + "-octaves.csv"@
}

/// How a wrong answer is scored.
#[derive(PartialEq, Eq, Structural, Clone, Copy, Debug)]
pub enum Scoring {
    /// One answer per trial; the trial ends whether or not it was right.
    SingleShot,
    /// A trial goes on until the right pitch is played; it counts as a success only if the
    /// first answer was right.
    UntilCorrect,
}

/// Where a session stands.
#[derive(PartialEq, Eq, Structural, Clone, Copy, Debug)]
pub enum Phase {
    /// Nothing has been played yet.
    Start,
    /// The tonic is sounding.
    TonicPlaying,
    /// Waiting for the user to play the tonic back.
    AwaitTonicAck,
    /// The introductory cadence is sounding.
    IntroCadence,
    /// Waiting for the next secret pitch to be drawn.
    DrawSecret,
    /// The secret pitch is sounding.
    PlaySecret(u8),
    /// Waiting for the input queued during playback to be discarded.
    DrainInput(u8),
    /// Waiting for the user's answer; `first` is whether no wrong answer was given yet.
    AwaitGuess { secret: u8, first: bool },
    /// The closing cadence is sounding.
    ClosingCadence,
    /// The session is over.
    Complete,
}

/// What the outside world reports to the session.
#[derive(PartialEq, Eq, Structural, Clone, Copy, Debug)]
pub enum SessionInput {
    /// The session is to start.
    Begin,
    /// The last note or cadence finished sounding.
    Played,
    /// The input queue was drained.
    Drained,
    /// The user played this pitch.
    Heard(u8),
    /// This secret pitch was drawn.
    Drawn(u8),
}

/// What the session asks of the outside world next.
#[derive(PartialEq, Eq, Structural, Clone, Copy, Debug)]
pub enum Command {
    /// Sound this note for its duration, then report `Played`.
    PlayNote(Note),
    /// Sound the dominant and then the tonic chord of the key, then report `Played`.
    PlayCadence,
    /// Discard every queued input event, then report `Drained`.
    Drain,
    /// Read one played pitch, then report it with `Heard`.
    Listen,
    /// Draw a secret pitch, then report it with `Drawn`.
    DrawSecret,
    /// The session is complete: record its statistics.
    Finish,
    /// The input was not expected now and was ignored.
    Ignore,
}

/// A session of `trial_count` trials of one game.
#[derive(PartialEq, Eq, Structural, Clone, Copy, Debug)]
pub struct Session {
    pub game: SingleNoteGame,
    pub scoring: Scoring,
    /// Whether a cadence is played before the first trial.
    pub intro: bool,
    pub trial_count: u64,
    pub trials_done: u64,
    pub success_count: u64,
    pub phase: Phase,
}

/// The per-session statistics that are persisted.
#[derive(PartialEq, Eq, Structural, Clone, Copy, Debug)]
pub struct StatsRecord {
    /// Seconds since the Unix epoch.
    pub timestamp: u64,
    pub trial_count: u64,
    pub success_count: u64,
}

/// The session, and the command, after a trial is scored: the next trial starts with a draw,
/// or, after the last one, the closing cadence sounds.
pub open spec fn next_trial(s: Session) -> (Session, Command) {
    if s.trials_done < s.trial_count {
        (Session { phase: Phase::DrawSecret, ..s }, Command::DrawSecret)
    } else {
        (Session { phase: Phase::ClosingCadence, ..s }, Command::PlayCadence)
    }
}

/// `s` with one more trial done, a success when `ok`, followed by the next trial.
pub open spec fn finish_trial(s: Session, ok: bool) -> (Session, Command) {
    next_trial(
        Session {
            trials_done: (s.trials_done + 1) as u64,
            success_count: if ok {
                (s.success_count + 1) as u64
            } else {
                s.success_count
            },
            ..s
        },
    )
}

/// The session, and the command, that follow `input` in `s`.
pub open spec fn transition(s: Session, input: SessionInput) -> (Session, Command) {
    match (s.phase, input) {
        (Phase::Start, SessionInput::Begin) => (
            Session { phase: Phase::TonicPlaying, ..s },
            Command::PlayNote(
                Note {
                    pitch: s.game.spec_tonic_pitch() as u8,
                    velocity: PHRASE_VELOCITY,
                    duration_ms: NOTE_MILLIS,
                },
            ),
        ),
        (Phase::TonicPlaying, SessionInput::Played) => (
            Session { phase: Phase::AwaitTonicAck, ..s },
            Command::Listen,
        ),
        (Phase::AwaitTonicAck, SessionInput::Heard(p)) => if p != s.game.spec_tonic_pitch() {
            (s, Command::Listen)
        } else if s.intro {
            (Session { phase: Phase::IntroCadence, ..s }, Command::PlayCadence)
        } else {
            next_trial(s)
        },
        (Phase::IntroCadence, SessionInput::Played) => next_trial(s),
        (Phase::DrawSecret, SessionInput::Drawn(p)) => if is_seven_bit(p as int) {
            (
                Session { phase: Phase::PlaySecret(p), ..s },
                Command::PlayNote(
                    Note { pitch: p, velocity: PHRASE_VELOCITY, duration_ms: NOTE_MILLIS },
                ),
            )
        } else {
            (s, Command::Ignore)
        },
        (Phase::PlaySecret(p), SessionInput::Played) => (
            Session { phase: Phase::DrainInput(p), ..s },
            Command::Drain,
        ),
        (Phase::DrainInput(p), SessionInput::Drained) => (
            Session { phase: Phase::AwaitGuess { secret: p, first: true }, ..s },
            Command::Listen,
        ),
        (Phase::AwaitGuess { secret, first }, SessionInput::Heard(g)) => if g == secret {
            finish_trial(s, first)
        } else {
            match s.scoring {
                Scoring::SingleShot => finish_trial(s, false),
                Scoring::UntilCorrect => (
                    Session { phase: Phase::AwaitGuess { secret, first: false }, ..s },
                    Command::Listen,
                ),
            }
        },
        (Phase::ClosingCadence, SessionInput::Played) => (
            Session { phase: Phase::Complete, ..s },
            Command::Finish,
        ),
        _ => (s, Command::Ignore),
    }
}

impl Session {
    /// The session is well formed: the game is, at most `trial_count` trials are done and at
    /// most that many succeeded, and a trial is under way only while one is left to do.
    pub open spec fn wf(&self) -> bool {
        &&& self.game.wf()
        &&& self.success_count <= self.trials_done <= self.trial_count
        &&& match self.phase {
            Phase::DrawSecret => self.trials_done < self.trial_count,
            Phase::PlaySecret(p) => self.trials_done < self.trial_count && p < 128,
            Phase::DrainInput(p) => self.trials_done < self.trial_count && p < 128,
            Phase::AwaitGuess { secret, first: _ } => self.trials_done < self.trial_count
                && secret < 128,
            _ => true,
        }
    }

    /// A session that has played nothing yet.
    pub fn new(game: SingleNoteGame, scoring: Scoring, intro: bool, trial_count: u64) -> (r:
        Session)
        requires
            game.wf(),
        ensures
            r == (Session {
                game,
                scoring,
                intro,
                trial_count,
                trials_done: 0,
                success_count: 0,
                phase: Phase::Start,
            }),
            r.wf(),
    {
        Session {
            game,
            scoring,
            intro,
            trial_count,
            trials_done: 0,
            success_count: 0,
            phase: Phase::Start,
        }
    }

    fn next_trial(&mut self) -> (r: Command)
        requires
            old(self).wf(),
        ensures
            (*final(self), r) == next_trial(*old(self)),
            final(self).wf(),
    {
        if self.trials_done < self.trial_count {
            self.phase = Phase::DrawSecret;
            Command::DrawSecret
        } else {
            self.phase = Phase::ClosingCadence;
            Command::PlayCadence
        }
    }

    fn finish_trial(&mut self, ok: bool) -> (r: Command)
        requires
            old(self).wf(),
            old(self).trials_done < old(self).trial_count,
        ensures
            (*final(self), r) == finish_trial(*old(self), ok),
            final(self).wf(),
    {
        self.trials_done = self.trials_done + 1;
        if ok {
            self.success_count = self.success_count + 1;
        }
        self.phase = Phase::Start;
        self.next_trial()
    }

    /// Takes what the outside world reports, moves to the next phase and says what to do
    /// next. The number of successes never falls, and never passes the number of trials.
    pub fn step(&mut self, input: SessionInput) -> (r: Command)
        requires
            old(self).wf(),
        ensures
            (*final(self), r) == transition(*old(self), input),
            final(self).wf(),
            old(self).success_count <= final(self).success_count <= final(self).trial_count,
            final(self).trial_count == old(self).trial_count,
    {
        let tonic: u8 = MIDDLE_C + self.game.key;
        match (self.phase, input) {
            (Phase::Start, SessionInput::Begin) => {
                self.phase = Phase::TonicPlaying;
                Command::PlayNote(Note::new(tonic, PHRASE_VELOCITY, NOTE_MILLIS))
            },
            (Phase::TonicPlaying, SessionInput::Played) => {
                self.phase = Phase::AwaitTonicAck;
                Command::Listen
            },
            (Phase::AwaitTonicAck, SessionInput::Heard(p)) => {
                if p != tonic {
                    Command::Listen
                } else if self.intro {
                    self.phase = Phase::IntroCadence;
                    Command::PlayCadence
                } else {
                    self.next_trial()
                }
            },
            (Phase::IntroCadence, SessionInput::Played) => self.next_trial(),
            (Phase::DrawSecret, SessionInput::Drawn(p)) => {
                if p <= 127 {
                    self.phase = Phase::PlaySecret(p);
                    Command::PlayNote(Note::new(p, PHRASE_VELOCITY, NOTE_MILLIS))
                } else {
                    Command::Ignore
                }
            },
            (Phase::PlaySecret(p), SessionInput::Played) => {
                self.phase = Phase::DrainInput(p);
                Command::Drain
            },
            (Phase::DrainInput(p), SessionInput::Drained) => {
                self.phase = Phase::AwaitGuess { secret: p, first: true };
                Command::Listen
            },
            (Phase::AwaitGuess { secret, first }, SessionInput::Heard(g)) => {
                if g == secret {
                    self.finish_trial(first)
                } else {
                    match self.scoring {
                        Scoring::SingleShot => self.finish_trial(false),
                        Scoring::UntilCorrect => {
                            self.phase = Phase::AwaitGuess { secret, first: false };
                            Command::Listen
                        },
                    }
                }
            },
            (Phase::ClosingCadence, SessionInput::Played) => {
                self.phase = Phase::Complete;
                Command::Finish
            },
            _ => Command::Ignore,
        }
    }

    /// The statistics of a complete session, stamped with `timestamp`; `None` before then.
    pub fn stats_record(&self, timestamp: u64) -> (r: Option<StatsRecord>)
        ensures
            self.phase == Phase::Complete ==> r == Some(
                StatsRecord {
                    timestamp,
                    trial_count: self.trial_count,
                    success_count: self.success_count,
                },
            ),
            self.phase != Phase::Complete ==> r is None,
    {
        if let Phase::Complete = self.phase {
            Some(
                StatsRecord {
                    timestamp,
                    trial_count: self.trial_count,
                    success_count: self.success_count,
                },
            )
        } else {
            None
        }
    }
}

} // verus!
