//! Pitches, scales, notes and chords.
use crate::midi::{note_bytes, note_event, write_live, NoteKind};
use rand::seq::SliceRandom;
use vstd::prelude::*;

verus! {

/// The octave that holds middle C.
pub const MIDDLE_OCTAVE: u8 = 4;

/// The MIDI pitch number of middle C.
pub const MIDDLE_C: u8 = 60;

/// The velocity at which phrases are sounded.
pub const PHRASE_VELOCITY: u8 = 64;

/// How long a single note of a phrase is held, in milliseconds.
pub const NOTE_MILLIS: u64 = 500;

/// How long each chord of a cadence is held, in milliseconds.
pub const CHORD_MILLIS: u64 = 750;

/// The semitone offsets of the seven degrees of the major scale from its root.
pub open spec fn major_scale() -> Seq<int> {
    seq![0, 2, 4, 5, 7, 9, 11]
}

/// A MIDI pitch or velocity: an integer in `[0, 127]`.
pub open spec fn is_seven_bit(n: int) -> bool {
    0 <= n <= 127
}

/// The seven pitches of the major scale on `key` in `octave`, counting octaves so that
/// octave `o` starts at pitch `12 * (o + 1)`.
pub open spec fn octave_pitches(key: int, octave: int) -> Seq<int> {
    major_scale().map_values(|iv: int| 12 * (octave + 1) + key + iv)
}

/// The scale pitches of every octave in `[lo, hi)`, lowest octave first.
pub open spec fn scale_window(key: int, lo: int, hi: int) -> Seq<int>
    decreases hi - lo,
{
    if hi <= lo {
        Seq::empty()
    } else {
        scale_window(key, lo, hi - 1) + octave_pitches(key, hi - 1)
    }
}

/// The pitches that `random_pitch` draws from: the scale window followed by the root of
/// the top octave, so that the upper tonic is always reachable.
pub open spec fn pitch_candidates(key: int, lo: int, hi: int) -> Seq<int> {
    scale_window(key, lo, hi).push(12 * hi + key)
}

/// The integer values of a sequence of bytes.
pub open spec fn as_ints(s: Seq<u8>) -> Seq<int> {
    s.map_values(|b: u8| b as int)
}

/// The major-scale offsets as an array.
fn major_scale_intervals() -> (r: [u8; 7])
    ensures
        as_ints(r@) == major_scale(),
{
    let r: [u8; 7] = [0, 2, 4, 5, 7, 9, 11];
    assert(as_ints(r@) =~= major_scale());
    r
}

/// Relies on rand's `SliceRandom::choose`, drawing with the thread-local generator: on a
/// non-empty slice it returns one of the slice's elements.
#[verifier::external_body]
fn choose_one<T: Copy>(items: &[T]) -> (r: T)
    requires
        items@.len() > 0,
    ensures
        items@.contains(r),
{
    *items.choose(&mut rand::thread_rng()).unwrap()
}

/// Every candidate pitch lies between the root of the lowest octave and the seventh degree
/// of the highest, and is either a degree of the major scale on `key` or the upper tonic.
pub proof fn lemma_candidates_in_window(key: int, lo: int, hi: int, p: int)
    requires
        0 <= key <= 11,
        lo < hi,
        pitch_candidates(key, lo, hi).contains(p),
    ensures
        12 * (lo + 1) + key <= p <= 12 * hi + key + 11,
        major_scale().contains((p - key) % 12) || p == 12 * hi + key,
{
    if p != 12 * hi + key {
        let i = choose|i: int| 0 <= i < pitch_candidates(key, lo, hi).len()
            && pitch_candidates(key, lo, hi)[i] == p;
        assert(scale_window(key, lo, hi).contains(p)) by {
            assert(i < scale_window(key, lo, hi).len());
            assert(scale_window(key, lo, hi)[i] == p);
        }
        lemma_window_pitch(key, lo, hi, p);
    } else {
        assert(major_scale()[0] == 0);
        assert((p - key) % 12 == 0) by (nonlinear_arith)
            requires p == 12 * hi + key;
    }
}

proof fn lemma_window_pitch(key: int, lo: int, hi: int, p: int)
    requires
        0 <= key <= 11,
        scale_window(key, lo, hi).contains(p),
    ensures
        12 * (lo + 1) + key <= p <= 12 * hi + key + 11,
        major_scale().contains((p - key) % 12),
    decreases hi - lo,
{
    let w = scale_window(key, lo, hi);
    let i = choose|i: int| 0 <= i < w.len() && w[i] == p;
    if hi <= lo {
        assert(false);
    }
    let prev = scale_window(key, lo, hi - 1);
    if i < prev.len() {
        assert(prev[i] == p);
        lemma_window_pitch(key, lo, hi - 1, p);
    } else {
        let j = i - prev.len();
        let iv = major_scale()[j];
        assert(octave_pitches(key, hi - 1)[j] == p);
        assert(p == 12 * hi + key + iv);
        assert(0 <= iv <= 11);
        assert(lo <= hi - 1);
        assert(12 * (lo + 1) <= 12 * hi) by (nonlinear_arith)
            requires lo + 1 <= hi;
        assert((p - key) % 12 == iv) by (nonlinear_arith)
            requires p - key == 12 * hi + iv, 0 <= iv < 12;
        assert(major_scale()[j] == iv);
    }
}

/// The candidate pitches of the major scale on `key` over the octaves `[lo, hi)`, followed
/// by the root of octave `hi`.
pub fn candidate_pitches(key: u8, lo: u8, hi: u8) -> (r: Vec<u8>)
    requires
        key <= 11,
        lo < hi,
        12 * hi + key + 11 <= 255,
    ensures
        as_ints(r@) == pitch_candidates(key as int, lo as int, hi as int),
{
    let intervals = major_scale_intervals();
    let mut notes: Vec<u8> = Vec::new();
    let mut octave: u8 = lo;
    while octave < hi
        invariant
            lo <= octave <= hi,
            key <= 11,
            12 * hi + key + 11 <= 255,
            as_ints(intervals@) == major_scale(),
            as_ints(notes@) == scale_window(key as int, lo as int, octave as int),
        decreases hi - octave,
    {
        let base: u8 = 12 * (octave + 1) + key;
        let mut d: usize = 0;
        while d < 7
            invariant
                d <= 7,
                lo <= octave < hi,
                key <= 11,
                12 * hi + key + 11 <= 255,
                base == 12 * (octave + 1) + key,
                as_ints(intervals@) == major_scale(),
                as_ints(notes@) == scale_window(key as int, lo as int, octave as int) + octave_pitches(
                    key as int,
                    octave as int,
                ).take(d as int),
            decreases 7 - d,
        {
            assert(intervals@[d as int] as int == major_scale()[d as int]);
            let p: u8 = base + intervals[d];
            proof {
                let before = notes@;
                assert(as_ints(before.push(p)) =~= as_ints(before).push(p as int));
                assert(octave_pitches(key as int, octave as int).take(d + 1) =~= octave_pitches(
                    key as int,
                    octave as int,
                ).take(d as int).push(p as int));
            }
            notes.push(p);
            d = d + 1;
        }
        assert(octave_pitches(key as int, octave as int).take(7) =~= octave_pitches(
            key as int,
            octave as int,
        ));
        octave = octave + 1;
    }
    let top: u8 = 12 * hi + key;
    proof {
        assert(as_ints(notes@.push(top)) =~= as_ints(notes@).push(top as int));
    }
    notes.push(top);
    notes
}

/// A pitch drawn uniformly from the candidates of the major scale on `key` over the octaves
/// `[lo, hi)` and the root of octave `hi`.
pub fn random_pitch(key: u8, lo: u8, hi: u8) -> (r: u8)
    requires
        key <= 11,
        lo < hi,
        12 * hi + key + 11 <= 255,
    ensures
        pitch_candidates(key as int, lo as int, hi as int).contains(r as int),
        12 * (lo + 1) + key <= r <= 12 * hi + key + 11,
        major_scale().contains((r - key) % 12) || r == 12 * hi + key,
{
    let notes = candidate_pitches(key, lo, hi);
    assert(as_ints(notes@).len() > 0);
    let r = choose_one(notes.as_slice());
    proof {
        let i = choose|i: int| 0 <= i < notes@.len() && notes@[i] == r;
        assert(as_ints(notes@)[i] == r as int);
        lemma_candidates_in_window(key as int, lo as int, hi as int, r as int);
    }
    r
}

/// A pitch held for a duration: sounded by a note-on, then a note-off after the duration.
#[derive(PartialEq, Eq, Structural, Clone, Copy, Debug)]
pub struct Note {
    pub pitch: u8,
    pub velocity: u8,
    pub duration_ms: u64,
}

impl Note {
    /// Pitch and velocity are MIDI values.
    pub open spec fn wf(&self) -> bool {
        self.pitch < 128 && self.velocity < 128
    }

    pub fn new(pitch: u8, velocity: u8, duration_ms: u64) -> (r: Note)
        requires
            pitch < 128,
            velocity < 128,
        ensures
            r == (Note { pitch, velocity, duration_ms }),
            r.wf(),
    {
        Note { pitch, velocity, duration_ms }
    }

    /// The bytes that start this note on channel 0.
    pub fn on_message(&self) -> (r: Vec<u8>)
        requires
            self.wf(),
        ensures
            r@ == seq![0x90u8, self.pitch, self.velocity],
    {
        let r = write_live(NoteKind::On, 0, self.pitch, self.velocity);
        assert(r@ =~= seq![0x90u8, self.pitch, self.velocity]);
        r
    }

    /// The bytes that end this note on channel 0.
    pub fn off_message(&self) -> (r: Vec<u8>)
        requires
            self.wf(),
        ensures
            r@ == seq![0x80u8, self.pitch, self.velocity],
    {
        let r = write_live(NoteKind::Off, 0, self.pitch, self.velocity);
        assert(r@ =~= seq![0x80u8, self.pitch, self.velocity]);
        r
    }
}

/// Pitches sounded together at one velocity and held for a duration.
#[derive(Clone, Debug)]
pub struct Chord {
    pub pitches: Vec<u8>,
    pub velocity: u8,
    pub duration_ms: u64,
}

/// The note event on channel 0 of each pitch, in the order of the pitches.
pub open spec fn chord_messages(kind: NoteKind, pitches: Seq<u8>, velocity: u8) -> Seq<Seq<u8>> {
    pitches.map_values(|p: u8| note_bytes(note_event(kind, 0, p, velocity)))
}

impl Chord {
    /// Every pitch and the velocity are MIDI values.
    pub open spec fn wf(&self) -> bool {
        &&& forall|i: int| 0 <= i < self.pitches@.len() ==> self.pitches@[i] < 128
        &&& self.velocity < 128
    }

    /// The note events of the chord on channel 0, one per pitch, in the order of the pitches.
    fn messages(&self, kind: NoteKind) -> (r: Vec<Vec<u8>>)
        requires
            self.wf(),
        ensures
            r@.map_values(|m: Vec<u8>| m@) == chord_messages(kind, self.pitches@, self.velocity),
    {
        let mut r: Vec<Vec<u8>> = Vec::new();
        let mut i: usize = 0;
        while i < self.pitches.len()
            invariant
                self.wf(),
                i <= self.pitches@.len(),
                r@.map_values(|m: Vec<u8>| m@) == chord_messages(kind, self.pitches@.take(i as int), self.velocity),
            decreases self.pitches@.len() - i,
        {
            let m = write_live(kind, 0, self.pitches[i], self.velocity);
            proof {
                assert(self.pitches@.take(i + 1) =~= self.pitches@.take(i as int).push(self.pitches@[i as int]));
                assert(r@.push(m).map_values(|m: Vec<u8>| m@) =~= r@.map_values(|m: Vec<u8>| m@).push(m@));
                assert(chord_messages(kind, self.pitches@.take(i + 1), self.velocity) =~= chord_messages(kind, self.pitches@.take(i as int), self.velocity).push(m@));
            }
            r.push(m);
            i = i + 1;
        }
        assert(self.pitches@.take(i as int) =~= self.pitches@);
        r
    }

    /// The bytes that start each pitch of the chord on channel 0, in the order of the pitches.
    pub fn on_messages(&self) -> (r: Vec<Vec<u8>>)
        requires
            self.wf(),
        ensures
            r@.map_values(|m: Vec<u8>| m@) == chord_messages(NoteKind::On, self.pitches@, self.velocity),
    {
        self.messages(NoteKind::On)
    }

    /// The bytes that end each pitch of the chord on channel 0, in the order of the pitches.
    pub fn off_messages(&self) -> (r: Vec<Vec<u8>>)
        requires
            self.wf(),
        ensures
            r@.map_values(|m: Vec<u8>| m@) == chord_messages(NoteKind::Off, self.pitches@, self.velocity),
    {
        self.messages(NoteKind::Off)
    }
}

/// The chord tones `offset + MIDDLE_C + key` of each offset, in the order of the offsets.
pub open spec fn chord_pitches(key: int, offsets: Seq<i8>) -> Seq<int> {
    offsets.map_values(|o: i8| o + MIDDLE_C + key)
}

/// Realises the interval offsets `offsets` on the root of `key` in the middle octave.
pub fn chord(key: u8, offsets: &[i8], velocity: u8, duration_ms: u64) -> (r: Chord)
    requires
        key <= 11,
        velocity < 128,
        forall|i: int| 0 <= i < offsets@.len() ==> is_seven_bit(offsets@[i] + MIDDLE_C + key),
    ensures
        as_ints(r.pitches@) == chord_pitches(key as int, offsets@),
        r.velocity == velocity,
        r.duration_ms == duration_ms,
        r.wf(),
{
    let root: i16 = MIDDLE_C as i16 + key as i16;
    let mut pitches: Vec<u8> = Vec::new();
    let mut i: usize = 0;
    while i < offsets.len()
        invariant
            i <= offsets@.len(),
            root == MIDDLE_C + key,
            forall|j: int| 0 <= j < offsets@.len() ==> is_seven_bit(offsets@[j] + MIDDLE_C + key),
            as_ints(pitches@) == chord_pitches(key as int, offsets@.take(i as int)),
        decreases offsets@.len() - i,
    {
        let p: u8 = (offsets[i] as i16 + root) as u8;
        proof {
            assert(offsets@.take(i + 1) =~= offsets@.take(i as int).push(offsets@[i as int]));
            assert(as_ints(pitches@.push(p)) =~= as_ints(pitches@).push(p as int));
            assert(chord_pitches(key as int, offsets@.take(i + 1)) =~= chord_pitches(key as int, offsets@.take(i as int)).push(p as int));
        }
        pitches.push(p);
        i = i + 1;
    }
    assert(offsets@.take(i as int) =~= offsets@);
    let r = Chord { pitches, velocity, duration_ms };
    assert forall|j: int| 0 <= j < r.pitches@.len() implies r.pitches@[j] < 128 by {
        assert(as_ints(r.pitches@)[j] == chord_pitches(key as int, offsets@)[j]);
    }
    r
}

/// The offsets of the dominant-seventh chord of a cadence, from the tonic.
pub open spec fn dominant_offsets() -> Seq<i8> {
    seq![-5i8, 2i8, 5i8, 11i8]
}

/// The offsets of the tonic chord of a cadence, from the tonic.
pub open spec fn tonic_offsets() -> Seq<i8> {
    seq![0i8, 4i8, 7i8, 12i8]
}

/// The dominant-seventh chord of `key` that opens a cadence.
pub fn dominant_chord(key: u8) -> (r: Chord)
    requires
        key <= 11,
    ensures
        as_ints(r.pitches@) == chord_pitches(key as int, dominant_offsets()),
        r.velocity == PHRASE_VELOCITY,
        r.duration_ms == CHORD_MILLIS,
        r.wf(),
{
    let offsets: [i8; 4] = [-5, 2, 5, 11];
    assert(offsets@ =~= dominant_offsets());
    chord(key, &offsets, PHRASE_VELOCITY, CHORD_MILLIS)
}

/// The tonic chord of `key` that closes a cadence.
pub fn tonic_chord(key: u8) -> (r: Chord)
    requires
        key <= 11,
    ensures
        as_ints(r.pitches@) == chord_pitches(key as int, tonic_offsets()),
        r.velocity == PHRASE_VELOCITY,
        r.duration_ms == CHORD_MILLIS,
        r.wf(),
{
    let offsets: [i8; 4] = [0, 4, 7, 12];
    assert(offsets@ =~= tonic_offsets());
    chord(key, &offsets, PHRASE_VELOCITY, CHORD_MILLIS)
}

/// A natural pitch class: a degree of the C major scale.
#[derive(PartialEq, Eq, Structural, Clone, Copy, Debug)]
pub enum PitchClass {
    C,
    D,
    E,
    F,
    G,
    A,
    B,
}

impl PitchClass {
    /// Semitones above C.
    pub open spec fn spec_semitones(self) -> int {
        match self {
            PitchClass::C => 0,
            PitchClass::D => 2,
            PitchClass::E => 4,
            PitchClass::F => 5,
            PitchClass::G => 7,
            PitchClass::A => 9,
            PitchClass::B => 11,
        }
    }

    /// Semitones above C.
    pub fn semitones(self) -> (r: u8)
        ensures
            r == self.spec_semitones(),
    {
        match self {
            PitchClass::C => 0,
            PitchClass::D => 2,
            PitchClass::E => 4,
            PitchClass::F => 5,
            PitchClass::G => 7,
            PitchClass::A => 9,
            PitchClass::B => 11,
        }
    }

    /// A pitch class drawn uniformly from the seven.
    pub fn random() -> (r: PitchClass)
        ensures
            major_scale().contains(r.spec_semitones()),
    {
        let all: [PitchClass; 7] = [
            PitchClass::C,
            PitchClass::D,
            PitchClass::E,
            PitchClass::F,
            PitchClass::G,
            PitchClass::A,
            PitchClass::B,
        ];
        let r = choose_one(&all);
        proof {
            let i = choose|i: int| 0 <= i < 7 && all@[i] == r;
            assert(major_scale()[i] == r.spec_semitones());
        }
        r
    }
}

} // verus!
