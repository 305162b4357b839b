//! The configured chord table and the chord matcher's transition function.
//!
//! A chord is an ordered sequence of key codes typed right after the reserved
//! start key; the start key itself is never stored in a sequence, but it is
//! counted in the matched length.

use vstd::prelude::*;
use crate::key::{KeyCode, KeyEvent, ModifierKey, RegularKey, spec_canonical};

verus! {

/// What a fully matched chord asks the caller to do.
#[derive(Clone, Copy, Debug, PartialEq, Eq, Structural)]
pub enum ChordAction {
    /// The quit sequence: terminate with a success status.
    Quit,
    /// A chord known to the table but with no action mapped: report an
    /// error, take no action.
    Unhandled,
}

/// The reserved key that arms chord listening.
pub open spec fn spec_start_key() -> KeyCode {
    KeyCode::Regular(RegularKey::Enter)
}

pub fn start_key() -> (k: KeyCode)
    ensures
        k == spec_start_key(),
{
    KeyCode::Regular(RegularKey::Enter)
}

/// The built-in quit sequence: canonical EitherShift, grave, period, then
/// three backspaces (the start key is implicit and not stored).
pub open spec fn spec_quit_chord() -> Seq<KeyCode> {
    seq![
        KeyCode::Modifier(ModifierKey::EitherShift),
        KeyCode::Regular(RegularKey::Grave),
        KeyCode::Regular(RegularKey::Period),
        KeyCode::Regular(RegularKey::Backspace),
        KeyCode::Regular(RegularKey::Backspace),
        KeyCode::Regular(RegularKey::Backspace),
    ]
}

pub fn quit_chord() -> (c: Vec<KeyCode>)
    ensures
        c@ == spec_quit_chord(),
{
    let mut c: Vec<KeyCode> = Vec::new();
    c.push(KeyCode::Modifier(ModifierKey::EitherShift));
    c.push(KeyCode::Regular(RegularKey::Grave));
    c.push(KeyCode::Regular(RegularKey::Period));
    c.push(KeyCode::Regular(RegularKey::Backspace));
    c.push(KeyCode::Regular(RegularKey::Backspace));
    c.push(KeyCode::Regular(RegularKey::Backspace));
    proof {
        assert(c@ =~= spec_quit_chord());
    }
    c
}

/// The views of a list of chords.
pub open spec fn seqs_of(v: Seq<Vec<KeyCode>>) -> Seq<Seq<KeyCode>> {
    v.map_values(|c: Vec<KeyCode>| c@)
}

/// The full configured table. It ships exactly the quit sequence.
pub open spec fn spec_chord_table() -> Seq<Seq<KeyCode>> {
    seq![spec_quit_chord()]
}

pub fn chord_table() -> (t: Vec<Vec<KeyCode>>)
    ensures
        seqs_of(t@) == spec_chord_table(),
{
    let mut t: Vec<Vec<KeyCode>> = Vec::new();
    t.push(quit_chord());
    proof {
        assert(seqs_of(t@) =~= spec_chord_table());
    }
    t
}

/// The action bound to a fully matched chord.
pub open spec fn spec_action_for(chord: Seq<KeyCode>) -> ChordAction {
    if chord == spec_quit_chord() {
        ChordAction::Quit
    } else {
        ChordAction::Unhandled
    }
}

/// Whether a chord stays a candidate when `key` is observed as the
/// `pos`-th chord key (0-based): it must have exactly `key` at that index.
pub open spec fn chord_accepts(chord: Seq<KeyCode>, pos: int, key: KeyCode) -> bool {
    0 <= pos < chord.len() && chord[pos] == key
}

/// The candidates of `cands` that accept `key` at position `pos`, in the
/// order they stand in `cands`.
pub open spec fn matching_candidates(cands: Seq<Seq<KeyCode>>, pos: int, key: KeyCode) -> Seq<
    Seq<KeyCode>,
>
    decreases cands.len(),
{
    if cands.len() == 0 {
        Seq::empty()
    } else {
        let front = matching_candidates(cands.drop_last(), pos, key);
        if chord_accepts(cands.last(), pos, key) {
            front.push(cands.last())
        } else {
            front
        }
    }
}

/// Every kept candidate is one of `cands` and accepts the key.
pub proof fn lemma_matching_candidates_membership(
    cands: Seq<Seq<KeyCode>>,
    pos: int,
    key: KeyCode,
)
    ensures
        forall|i: int|
            0 <= i < matching_candidates(cands, pos, key).len() ==> {
                &&& cands.contains(#[trigger] matching_candidates(cands, pos, key)[i])
                &&& chord_accepts(matching_candidates(cands, pos, key)[i], pos, key)
            },
        matching_candidates(cands, pos, key).len() <= cands.len(),
    decreases cands.len(),
{
    if cands.len() > 0 {
        lemma_matching_candidates_membership(cands.drop_last(), pos, key);
        assert forall|i: int| 0 <= i < cands.drop_last().len() implies cands.contains(
            cands.drop_last()[i],
        ) by {
            assert(cands[i] == cands.drop_last()[i]);
        }
        assert(cands.contains(cands.last()));
    }
}

/// The result of one matcher step: the surviving candidates, the new
/// matched length and buffer, and the action of a chord that fired, if any.
pub struct MatcherStep {
    pub candidates: Seq<Seq<KeyCode>>,
    pub length: u8,
    pub buffer: KeyCode,
    pub fired: Option<ChordAction>,
}

/// One transition of the chord matcher, evaluated on the just-updated chord
/// buffer `buf` against the full table and the current candidates:
/// - the start key re-arms listening unconditionally (candidates reset to
///   the full table, matched length 1), even mid-sequence;
/// - while idle (length 0), or when the buffer holds the sentinel
///   `Unknown` (the event was a release), nothing changes;
/// - otherwise the buffer is canonicalized and the candidates filtered to
///   those that carry the canonical key at index `length - 1`; the length
///   advances, or falls back to 0 when no candidate survives. A chord fires
///   when it alone survives and this key was its last. The matched length
///   is deliberately left advanced after a fire: the next press then runs
///   past the fired chord's end, empties the candidate list and returns the
///   matcher to idle, so a chord cannot fire twice without a new start key.
pub open spec fn chords_step(
    table: Seq<Seq<KeyCode>>,
    cands: Seq<Seq<KeyCode>>,
    length: u8,
    buf: KeyCode,
) -> MatcherStep {
    if buf == spec_start_key() {
        MatcherStep { candidates: table, length: 1u8, buffer: buf, fired: None }
    } else if length == 0 || buf == KeyCode::Unknown {
        MatcherStep { candidates: cands, length, buffer: buf, fired: None }
    } else {
        let key = spec_canonical(buf);
        let kept = matching_candidates(cands, length - 1, key);
        MatcherStep {
            candidates: kept,
            length: if kept.len() == 0 {
                0u8
            } else {
                (length + 1) as u8
            },
            buffer: key,
            fired: if kept.len() == 1 && kept[0].len() == length {
                Some(spec_action_for(kept[0]))
            } else {
                None
            },
        }
    }
}

/// What the chord buffer holds after one tracking step: a release clears it
/// to the sentinel, a press stores the pressed key, a repeat leaves it.
pub open spec fn buffer_after(kind: KeyEvent, key_code: KeyCode, prior: KeyCode) -> KeyCode {
    match kind {
        KeyEvent::Release => KeyCode::Unknown,
        KeyEvent::Press => key_code,
        KeyEvent::Repeat => prior,
    }
}

/// Pressing the start key re-arms the matcher wherever it stands, idle or
/// mid-chord: the candidate list resets to the full table and the matched
/// length to 1, discarding any prior partial match, and nothing fires.
pub proof fn lemma_start_key_rearms(
    table: Seq<Seq<KeyCode>>,
    cands: Seq<Seq<KeyCode>>,
    length: u8,
    buf: KeyCode,
)
    requires
        buf == spec_start_key(),
    ensures
        chords_step(table, cands, length, buf).candidates == table,
        chords_step(table, cands, length, buf).length == 1,
        chords_step(table, cands, length, buf).fired is None,
{
}

/// A release-only event, which leaves the sentinel in the chord buffer,
/// neither advances nor aborts an in-progress match: candidates, matched
/// length and buffer are unchanged and nothing fires.
pub proof fn lemma_release_does_not_abort(
    table: Seq<Seq<KeyCode>>,
    cands: Seq<Seq<KeyCode>>,
    length: u8,
    buf: KeyCode,
)
    requires
        buf == KeyCode::Unknown,
    ensures
        chords_step(table, cands, length, buf).candidates == cands,
        chords_step(table, cands, length, buf).length == length,
        chords_step(table, cands, length, buf).buffer == buf,
        chords_step(table, cands, length, buf).fired is None,
{
}

/// A press that matches no candidate at its position empties the candidate
/// list and returns the matcher to idle.
pub proof fn lemma_no_match_resets(
    table: Seq<Seq<KeyCode>>,
    cands: Seq<Seq<KeyCode>>,
    length: u8,
    buf: KeyCode,
)
    requires
        buf != spec_start_key(),
        buf != KeyCode::Unknown,
        length >= 1,
        matching_candidates(cands, length - 1, spec_canonical(buf)).len() == 0,
    ensures
        chords_step(table, cands, length, buf).length == 0,
        chords_step(table, cands, length, buf).candidates.len() == 0,
        chords_step(table, cands, length, buf).fired is None,
{
}

/// While idle, any key but the start key leaves the matcher idle: the
/// candidates stay as they are and nothing matches or fires.
pub proof fn lemma_idle_ignores(
    table: Seq<Seq<KeyCode>>,
    cands: Seq<Seq<KeyCode>>,
    length: u8,
    buf: KeyCode,
)
    requires
        buf != spec_start_key(),
        length == 0,
    ensures
        chords_step(table, cands, length, buf).candidates == cands,
        chords_step(table, cands, length, buf).length == 0,
        chords_step(table, cands, length, buf).fired is None,
{
}

} // verus!
