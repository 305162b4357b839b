//! The keyboard session state: the ordered lists of currently pressed
//! regular and modifier keys, the chord buffer, and the chord matcher's
//! matched length and candidate list.

use vstd::prelude::*;
use crate::key::{KeyCode, KeyEvent, ModifierKey, RegularKey, canonical_key};
use crate::chord::{ChordAction, buffer_after, chord_accepts, chord_table, chords_step,
    lemma_matching_candidates_membership, matching_candidates, quit_chord, seqs_of,
    spec_action_for, spec_chord_table, spec_quit_chord, start_key};
use crate::report::USBKeyEvent;

verus! {

/// `s` with the first occurrence of `x` removed; `s` itself when `x` does
/// not occur.
pub open spec fn remove_first<A>(s: Seq<A>, x: A) -> Seq<A>
    decreases s.len(),
{
    if s.len() == 0 {
        s
    } else if s[0] == x {
        s.drop_first()
    } else {
        seq![s[0]] + remove_first(s.drop_first(), x)
    }
}

/// How often `x` occurs in `s`.
pub open spec fn occurrences<A>(s: Seq<A>, x: A) -> nat
    decreases s.len(),
{
    if s.len() == 0 {
        0
    } else {
        (if s[0] == x {
            1nat
        } else {
            0nat
        }) + occurrences(s.drop_first(), x)
    }
}

/// An element occurs exactly when its occurrence count is positive.
pub proof fn lemma_occurrences_contains<A>(s: Seq<A>, x: A)
    ensures
        s.contains(x) <==> occurrences(s, x) > 0,
    decreases s.len(),
{
    if s.len() > 0 {
        lemma_occurrences_contains(s.drop_first(), x);
        if s[0] != x && s.contains(x) {
            let i = choose|i: int| 0 <= i < s.len() && s[i] == x;
            assert(s.drop_first()[i - 1] == x);
        }
        if s.drop_first().contains(x) {
            let i = choose|i: int| 0 <= i < s.drop_first().len() && s.drop_first()[i] == x;
            assert(s[i + 1] == x);
        }
    }
}

/// Removing the first occurrence of `x` takes away exactly one occurrence
/// of `x` and leaves the occurrence count of every other element unchanged.
pub proof fn lemma_remove_first_exactly_one<A>(s: Seq<A>, x: A, y: A)
    requires
        s.contains(x),
    ensures
        occurrences(remove_first(s, x), x) == occurrences(s, x) - 1,
        x != y ==> occurrences(remove_first(s, x), y) == occurrences(s, y),
    decreases s.len(),
{
    lemma_occurrences_contains(s, x);
    if s[0] == x {
        assert(remove_first(s, x) == s.drop_first());
    } else {
        let rest = remove_first(s.drop_first(), x);
        assert(s.drop_first().contains(x)) by {
            let i = choose|i: int| 0 <= i < s.len() && s[i] == x;
            assert(s.drop_first()[i - 1] == x);
        }
        lemma_remove_first_exactly_one(s.drop_first(), x, y);
        assert((seq![s[0]] + rest).drop_first() =~= rest);
    }
}

/// `remove_first` leaves a sequence without the element unchanged.
pub proof fn lemma_remove_first_absent<A>(s: Seq<A>, x: A)
    requires
        !s.contains(x),
    ensures
        remove_first(s, x) == s,
    decreases s.len(),
{
    if s.len() > 0 {
        assert(s[0] != x);
        assert(!s.drop_first().contains(x)) by {
            if s.drop_first().contains(x) {
                let i = choose|i: int| 0 <= i < s.drop_first().len() && s.drop_first()[i] == x;
                assert(s[i + 1] == x);
            }
        }
        lemma_remove_first_absent(s.drop_first(), x);
        assert(seq![s[0]] + s.drop_first() =~= s);
    }
}

/// Removing at the position of the first occurrence is `remove_first`.
proof fn lemma_remove_first_at<A>(s: Seq<A>, x: A, i: int)
    requires
        0 <= i < s.len(),
        s[i] == x,
        forall|j: int| 0 <= j < i ==> s[j] != x,
    ensures
        remove_first(s, x) == s.remove(i),
    decreases i,
{
    if i == 0 {
        assert(s.drop_first() =~= s.remove(0));
    } else {
        assert(s.drop_first()[i - 1] == x);
        lemma_remove_first_at(s.drop_first(), x, i - 1);
        assert(seq![s[0]] + s.drop_first().remove(i - 1) =~= s.remove(i));
    }
}

/// The index of the first occurrence of `k` in `keys`, if any.
fn find_first_regular(keys: &Vec<RegularKey>, k: RegularKey) -> (r: Option<usize>)
    ensures
        match r {
            Some(i) => {
                &&& i < keys@.len()
                &&& keys@[i as int] == k
                &&& forall|j: int| 0 <= j < i ==> keys@[j] != k
            },
            None => !keys@.contains(k),
        },
{
    let mut i: usize = 0;
    while i < keys.len()
        invariant
            i <= keys@.len(),
            forall|j: int| 0 <= j < i ==> keys@[j] != k,
        decreases keys@.len() - i,
    {
        if keys[i] == k {
            return Some(i);
        }
        i = i + 1;
    }
    None
}

/// The index of the first occurrence of `m` in `mods`, if any.
fn find_first_modifier(mods: &Vec<ModifierKey>, m: ModifierKey) -> (r: Option<usize>)
    ensures
        match r {
            Some(i) => {
                &&& i < mods@.len()
                &&& mods@[i as int] == m
                &&& forall|j: int| 0 <= j < i ==> mods@[j] != m
            },
            None => !mods@.contains(m),
        },
{
    let mut i: usize = 0;
    while i < mods.len()
        invariant
            i <= mods@.len(),
            forall|j: int| 0 <= j < i ==> mods@[j] != m,
        decreases mods@.len() - i,
    {
        if mods[i] == m {
            return Some(i);
        }
        i = i + 1;
    }
    None
}

/// Well-formedness of the matcher state: every candidate is one of the
/// configured chords, and every configured chord is short enough that the
/// matched length cannot outgrow its counter.
pub open spec fn wf_state(table: Seq<Seq<KeyCode>>, cands: Seq<Seq<KeyCode>>) -> bool {
    &&& forall|i: int| 0 <= i < cands.len() ==> table.contains(#[trigger] cands[i])
    &&& forall|i: int| 0 <= i < table.len() ==> (#[trigger] table[i]).len() < 255
}

/// The keyboard session state. Created empty once at startup and mutated
/// exactly once per observed input event.
pub struct Keyboard {
    /// The currently pressed regular keys, oldest press first.
    pub keys: Vec<RegularKey>,
    /// The currently pressed modifier keys, oldest press first.
    pub modifiers: Vec<ModifierKey>,
    /// The last observed key code; `KeyCode::Unknown` is the sentinel for
    /// "nothing pending" (idle, or the last event was a release).
    pub chord_buffer: KeyCode,
    /// How many keys of a chord sequence have matched, the start key
    /// included; 0 while not listening.
    pub chord_length: u8,
    /// The full configured chord table.
    pub chords: Vec<Vec<KeyCode>>,
    /// The candidates still viable at the current matched length; always a
    /// subset of the table.
    pub possible_chords: Vec<Vec<KeyCode>>,
}

impl Keyboard {
    /// The views of the current candidate chords.
    pub open spec fn candidates(self) -> Seq<Seq<KeyCode>> {
        seqs_of(self.possible_chords@)
    }

    /// The views of the configured chord table.
    pub open spec fn table(self) -> Seq<Seq<KeyCode>> {
        seqs_of(self.chords@)
    }

    /// Well-formedness: see [`wf_state`].
    pub open spec fn wf(self) -> bool {
        wf_state(self.table(), self.candidates())
    }

    /// A fresh session: nothing pressed, matcher idle, the built-in chord
    /// table configured.
    pub fn new() -> (kb: Keyboard)
        ensures
            kb.wf(),
            kb.keys@.len() == 0,
            kb.modifiers@.len() == 0,
            kb.chord_buffer == KeyCode::Unknown,
            kb.chord_length == 0,
            kb.table() == spec_chord_table(),
            kb.candidates().len() == 0,
    {
        let kb = Keyboard {
            keys: Vec::new(),
            modifiers: Vec::new(),
            chord_buffer: KeyCode::Unknown,
            chord_length: 0,
            chords: chord_table(),
            possible_chords: Vec::new(),
        };
        proof {
            assert(spec_quit_chord().len() == 6);
        }
        kb
    }

    /// One tracking step for a classified key event. A release removes the
    /// first tracked occurrence of the key and clears the chord buffer; a
    /// press appends the key (literally, without deduplication) and stores
    /// it in the chord buffer; a repeat changes nothing. The matcher's
    /// candidates and matched length are never touched here.
    pub fn process_key_events(&mut self, kind: KeyEvent, key_code: KeyCode)
        ensures
            final(self).chords@ == old(self).chords@,
            final(self).possible_chords@ == old(self).possible_chords@,
            final(self).chord_length == old(self).chord_length,
            final(self).wf() == old(self).wf(),
            match kind {
                KeyEvent::Release => {
                    &&& final(self).chord_buffer == KeyCode::Unknown
                    &&& match key_code {
                        KeyCode::Regular(k) => final(self).keys@ == remove_first(old(self).keys@, k)
                            && final(self).modifiers@ == old(self).modifiers@,
                        KeyCode::Modifier(m) => final(self).modifiers@ == remove_first(
                            old(self).modifiers@,
                            m,
                        ) && final(self).keys@ == old(self).keys@,
                        KeyCode::Unknown => final(self).keys@ == old(self).keys@ && final(self).modifiers@ == old(
                            self,
                        ).modifiers@,
                    }
                },
                KeyEvent::Press => {
                    &&& final(self).chord_buffer == key_code
                    &&& match key_code {
                        KeyCode::Regular(k) => final(self).keys@ == old(self).keys@.push(k)
                            && final(self).modifiers@ == old(self).modifiers@,
                        KeyCode::Modifier(m) => final(self).modifiers@ == old(self).modifiers@.push(m)
                            && final(self).keys@ == old(self).keys@,
                        KeyCode::Unknown => final(self).keys@ == old(self).keys@ && final(self).modifiers@ == old(
                            self,
                        ).modifiers@,
                    }
                },
                KeyEvent::Repeat => {
                    &&& final(self).chord_buffer == old(self).chord_buffer
                    &&& final(self).keys@ == old(self).keys@
                    &&& final(self).modifiers@ == old(self).modifiers@
                },
            },
    {
        match kind {
            KeyEvent::Release => {
                match key_code {
                    KeyCode::Regular(released) => {
                        match find_first_regular(&self.keys, released) {
                            Some(i) => {
                                self.keys.remove(i);
                                proof {
                                    lemma_remove_first_at(old(self).keys@, released, i as int);
                                }
                            },
                            None => {
                                proof {
                                    lemma_remove_first_absent(old(self).keys@, released);
                                }
                            },
                        }
                    },
                    KeyCode::Modifier(released) => {
                        match find_first_modifier(&self.modifiers, released) {
                            Some(i) => {
                                self.modifiers.remove(i);
                                proof {
                                    lemma_remove_first_at(old(self).modifiers@, released, i as int);
                                }
                            },
                            None => {
                                proof {
                                    lemma_remove_first_absent(old(self).modifiers@, released);
                                }
                            },
                        }
                    },
                    KeyCode::Unknown => {},
                }
                self.chord_buffer = KeyCode::Unknown;
            },
            KeyEvent::Press => {
                match key_code {
                    KeyCode::Regular(pressed) => {
                        self.keys.push(pressed);
                    },
                    KeyCode::Modifier(pressed) => {
                        self.modifiers.push(pressed);
                    },
                    KeyCode::Unknown => {},
                }
                self.chord_buffer = key_code;
            },
            KeyEvent::Repeat => {},
        }
    }

    /// The action bound to a fully matched chord: the quit sequence maps to
    /// `ChordAction::Quit`; any other configured chord has no action mapped
    /// and is reported as unhandled.
    pub fn handle_chord(&self, chord: &Vec<KeyCode>) -> (a: ChordAction)
        ensures
            a == spec_action_for(chord@),
    {
        let quit = quit_chord();
        if key_seq_eq(chord, &quit) {
            ChordAction::Quit
        } else {
            ChordAction::Unhandled
        }
    }

    /// One matcher transition on the just-updated chord buffer, exactly
    /// [`chords_step`] of the current state. Returns the action of a chord
    /// that fired on this event, if any. The pressed-key lists and the
    /// table are untouched.
    pub fn process_chords(&mut self) -> (r: Option<ChordAction>)
        requires
            old(self).wf(),
        ensures
            final(self).wf(),
            final(self).keys@ == old(self).keys@,
            final(self).modifiers@ == old(self).modifiers@,
            final(self).chords@ == old(self).chords@,
            ({
                let step = chords_step(
                    old(self).table(),
                    old(self).candidates(),
                    old(self).chord_length,
                    old(self).chord_buffer,
                );
                &&& final(self).candidates() == step.candidates
                &&& final(self).chord_length == step.length
                &&& final(self).chord_buffer == step.buffer
                &&& r == step.fired
            }),
    {
        if self.chord_buffer == start_key() {
            self.possible_chords = copy_table(&self.chords);
            self.chord_length = 1;
            proof {
                assert forall|i: int| 0 <= i < self.candidates().len() implies self.table().contains(
                    #[trigger] self.candidates()[i],
                ) by {
                    assert(self.table()[i] == self.candidates()[i]);
                }
            }
            return None;
        }
        if self.chord_length == 0 || self.chord_buffer == KeyCode::Unknown {
            return None;
        }
        let key = canonical_key(self.chord_buffer);
        self.chord_buffer = key;
        let prior_length = self.chord_length;
        let pos = (prior_length - 1) as usize;
        let ghost cands = old(self).candidates();
        let mut kept: Vec<Vec<KeyCode>> = Vec::new();
        let mut i: usize = 0;
        while i < self.possible_chords.len()
            invariant
                i <= self.possible_chords@.len(),
                cands == seqs_of(self.possible_chords@),
                seqs_of(kept@) == matching_candidates(cands.take(i as int), pos as int, key),
            decreases self.possible_chords@.len() - i,
        {
            let c = &self.possible_chords[i];
            proof {
                assert(cands.take(i + 1).drop_last() =~= cands.take(i as int));
                assert(cands.take(i + 1).last() == c@);
            }
            if pos < c.len() && c[pos] == key {
                kept.push(copy_chord(c));
                proof {
                    assert(seqs_of(kept@) =~= matching_candidates(cands.take(i + 1), pos as int, key));
                }
            } else {
                proof {
                    assert(seqs_of(kept@) =~= matching_candidates(cands.take(i + 1), pos as int, key));
                }
            }
            i = i + 1;
        }
        proof {
            assert(cands.take(cands.len() as int) =~= cands);
        }
        let ghost keptv = matching_candidates(cands, pos as int, key);
        let mut result: Option<ChordAction> = None;
        if kept.len() == 1 && kept[0].len() == prior_length as usize {
            proof {
                assert(kept@[0]@ == keptv[0]);
            }
            result = Some(self.handle_chord(&kept[0]));
        }
        if kept.len() == 0 {
            self.chord_length = 0;
        } else {
            proof {
                lemma_matching_candidates_membership(cands, pos as int, key);
                assert(cands.contains(keptv[0]) && chord_accepts(keptv[0], pos as int, key));
                let ci = choose|ci: int| 0 <= ci < cands.len() && cands[ci] == keptv[0];
                assert(old(self).table().contains(cands[ci]));
                let ti = choose|ti: int|
                    0 <= ti < old(self).table().len() && old(self).table()[ti] == cands[ci];
                assert(old(self).table()[ti].len() < 255);
                assert(prior_length < 255);
            }
            self.chord_length = prior_length + 1;
        }
        self.possible_chords = kept;
        proof {
            lemma_matching_candidates_membership(cands, pos as int, key);
            assert forall|i: int| 0 <= i < keptv.len() implies old(self).table().contains(
                #[trigger] keptv[i],
            ) by {
                assert(cands.contains(keptv[i]));
                let ci = choose|ci: int| 0 <= ci < cands.len() && cands[ci] == keptv[i];
                assert(old(self).table().contains(cands[ci]));
            }
        }
        result
    }

    /// One full processing step for a classified key event: the tracking
    /// update first, then the chord matcher on the just-updated buffer.
    /// Returns the action of a chord that fired on this event, if any.
    pub fn process_event(&mut self, kind: KeyEvent, key_code: KeyCode) -> (r: Option<ChordAction>)
        requires
            old(self).wf(),
        ensures
            final(self).wf(),
            final(self).chords@ == old(self).chords@,
            match kind {
                KeyEvent::Release => match key_code {
                    KeyCode::Regular(k) => final(self).keys@ == remove_first(old(self).keys@, k)
                        && final(self).modifiers@ == old(self).modifiers@,
                    KeyCode::Modifier(m) => final(self).modifiers@ == remove_first(
                        old(self).modifiers@,
                        m,
                    ) && final(self).keys@ == old(self).keys@,
                    KeyCode::Unknown => final(self).keys@ == old(self).keys@ && final(self).modifiers@ == old(self).modifiers@,
                },
                KeyEvent::Press => match key_code {
                    KeyCode::Regular(k) => final(self).keys@ == old(self).keys@.push(k) && final(self).modifiers@ == old(self).modifiers@,
                    KeyCode::Modifier(m) => final(self).modifiers@ == old(self).modifiers@.push(m)
                        && final(self).keys@ == old(self).keys@,
                    KeyCode::Unknown => final(self).keys@ == old(self).keys@ && final(self).modifiers@ == old(self).modifiers@,
                },
                KeyEvent::Repeat => final(self).keys@ == old(self).keys@ && final(self).modifiers@
                    == old(self).modifiers@,
            },
            ({
                let step = chords_step(
                    old(self).table(),
                    old(self).candidates(),
                    old(self).chord_length,
                    buffer_after(kind, key_code, old(self).chord_buffer),
                );
                &&& final(self).candidates() == step.candidates
                &&& final(self).chord_length == step.length
                &&& final(self).chord_buffer == step.buffer
                &&& r == step.fired
            }),
    {
        self.process_key_events(kind, key_code);
        self.process_chords()
    }

    /// A snapshot of the currently pressed key set, ready for encoding.
    pub fn usb_key_event(&self) -> (e: USBKeyEvent)
        ensures
            e.keys@ == self.keys@,
            e.modifiers@ == self.modifiers@,
    {
        USBKeyEvent { modifiers: copy_modifiers(&self.modifiers), keys: copy_keys(&self.keys) }
    }
}

/// Whether two key sequences hold the same keys in the same order.
fn key_seq_eq(a: &Vec<KeyCode>, b: &Vec<KeyCode>) -> (r: bool)
    ensures
        r == (a@ == b@),
{
    if a.len() != b.len() {
        return false;
    }
    let mut i: usize = 0;
    while i < a.len()
        invariant
            i <= a@.len(),
            a@.len() == b@.len(),
            forall|j: int| 0 <= j < i ==> a@[j] == b@[j],
        decreases a@.len() - i,
    {
        if a[i] != b[i] {
            return false;
        }
        i = i + 1;
    }
    proof {
        assert(a@ =~= b@);
    }
    true
}

/// A copy of a chord sequence.
fn copy_chord(c: &Vec<KeyCode>) -> (r: Vec<KeyCode>)
    ensures
        r@ == c@,
{
    let mut r: Vec<KeyCode> = Vec::new();
    let mut i: usize = 0;
    while i < c.len()
        invariant
            i <= c@.len(),
            r@ == c@.take(i as int),
        decreases c@.len() - i,
    {
        r.push(c[i]);
        proof {
            assert(c@.take(i + 1) =~= c@.take(i as int).push(c@[i as int]));
        }
        i = i + 1;
    }
    proof {
        assert(c@.take(c@.len() as int) =~= c@);
    }
    r
}

/// A copy of the chord table, element views preserved.
fn copy_table(t: &Vec<Vec<KeyCode>>) -> (r: Vec<Vec<KeyCode>>)
    ensures
        seqs_of(r@) == seqs_of(t@),
{
    let mut r: Vec<Vec<KeyCode>> = Vec::new();
    let mut i: usize = 0;
    while i < t.len()
        invariant
            i <= t@.len(),
            r@.len() == i,
            forall|j: int| 0 <= j < i ==> (#[trigger] r@[j])@ == t@[j]@,
        decreases t@.len() - i,
    {
        r.push(copy_chord(&t[i]));
        i = i + 1;
    }
    proof {
        assert(seqs_of(r@) =~= seqs_of(t@));
    }
    r
}

/// A copy of the pressed regular keys.
fn copy_keys(keys: &Vec<RegularKey>) -> (r: Vec<RegularKey>)
    ensures
        r@ == keys@,
{
    let mut r: Vec<RegularKey> = Vec::new();
    let mut i: usize = 0;
    while i < keys.len()
        invariant
            i <= keys@.len(),
            r@ == keys@.take(i as int),
        decreases keys@.len() - i,
    {
        r.push(keys[i]);
        proof {
            assert(keys@.take(i + 1) =~= keys@.take(i as int).push(keys@[i as int]));
        }
        i = i + 1;
    }
    proof {
        assert(keys@.take(keys@.len() as int) =~= keys@);
    }
    r
}

/// A copy of the pressed modifier keys.
fn copy_modifiers(mods: &Vec<ModifierKey>) -> (r: Vec<ModifierKey>)
    ensures
        r@ == mods@,
{
    let mut r: Vec<ModifierKey> = Vec::new();
    let mut i: usize = 0;
    while i < mods.len()
        invariant
            i <= mods@.len(),
            r@ == mods@.take(i as int),
        decreases mods@.len() - i,
    {
        r.push(mods[i]);
        proof {
            assert(mods@.take(i + 1) =~= mods@.take(i as int).push(mods@[i as int]));
        }
        i = i + 1;
    }
    proof {
        assert(mods@.take(mods@.len() as int) =~= mods@);
    }
    r
}

} // verus!
