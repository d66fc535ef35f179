//! The escape-sequence decoder: an incremental state machine that turns a raw
//! terminal byte stream into typed input events.
//!
//! The machine is specified byte by byte ([`step`]) and extended to whole
//! byte sequences ([`run`]); the executable [`Decoder`] is proved to follow it
//! exactly. Because the specification consumes one byte at a time, how the
//! stream is cut into chunks can never change what is decoded
//! ([`lemma_rechunking`]).

use vstd::prelude::*;
use vstd::utf8::{
    codepoint_width_2, codepoint_width_3, codepoint_width_4, is_continuation_byte,
    is_leading_byte_width_2, is_leading_byte_width_3, is_leading_byte_width_4,
    not_overlong_encoding, not_surrogate,
};

use crate::event::{
    alt_mods, ctrl_mods, key_event, no_mods, EventModel, Key, KeyEvent, Mods, MouseButton,
    MouseEvent, MouseKind,
};

verus! {

/// The escape introducer byte.
pub const ESC: u8 = 0x1b;

/// The bracket that opens a CSI (parameterized) sequence after the introducer.
pub const CSI_BRACKET: u8 = 0x5b;

/// Parameter bytes collected for one CSI sequence are capped at this count;
/// a longer run is treated as malformed (bounded lookahead).
pub const CSI_MAX_PARAM_BYTES: usize = 32;

/// Largest value a single numeric CSI parameter may take.
pub const CSI_MAX_PARAM_VALUE: u32 = 0xffff;

/// The decoder's retained memory of an in-progress sequence.
///
/// `Ground` is both the initial state and the state after every emitted or
/// discarded event. In `Csi`, `raw` holds the bytes seen since the bracket
/// (markers, digits and separators, in order), `marker` the leading private
/// marker byte (0 when none), `params` the completed numeric parameters,
/// `cur` the parameter currently being read, and `ok` turns false once a
/// parameter exceeds [`CSI_MAX_PARAM_VALUE`]. In `Utf8`, `raw` holds the lead
/// byte and the continuation bytes seen so far of a unit `need` bytes long.
#[verifier::ext_equal]
pub enum DecoderState {
    Ground,
    EscapeSeen,
    Csi { raw: Seq<u8>, marker: u8, params: Seq<u16>, cur: u16, ok: bool },
    Utf8 { raw: Seq<u8>, need: u8 },
}

/// A printable ASCII byte.
pub open spec fn is_printable(b: u8) -> bool {
    0x20 <= b <= 0x7e
}

/// An ASCII decimal digit.
pub open spec fn is_ascii_digit(b: u8) -> bool {
    0x30 <= b <= 0x39
}

/// An ASCII letter or digit: the bytes that, straight after the introducer,
/// read as a single-character escape (the key typed with alt held).
pub open spec fn is_alt_escapable(b: u8) -> bool {
    is_ascii_digit(b) || (0x41 <= b <= 0x5a) || (0x61 <= b <= 0x7a)
}

/// The event for a control byte other than the escape introducer.
pub open spec fn control_key(b: u8) -> EventModel
    recommends
        b < 0x20 || b == 0x7f,
        b != ESC,
{
    if b == 0x09 {
        key_event(Key::Tab)
    } else if b == 0x0a || b == 0x0d {
        key_event(Key::Enter)
    } else if b == 0x08 || b == 0x7f {
        key_event(Key::Backspace)
    } else if b == 0x00 {
        key_event(Key::Null)
    } else if 0x01 <= b <= 0x1a {
        EventModel::Key(
            KeyEvent { key: Key::Char(((b - 1 + 0x61) as u8) as char), mods: ctrl_mods() },
        )
    } else {
        EventModel::Unsupported(seq![b])
    }
}

/// What one byte does when no sequence is in progress.
pub open spec fn ground_step(b: u8) -> (DecoderState, Seq<EventModel>) {
    if b == ESC {
        (DecoderState::EscapeSeen, seq![])
    } else if is_printable(b) {
        (DecoderState::Ground, seq![key_event(Key::Char(b as char))])
    } else if b < 0x20 || b == 0x7f {
        (DecoderState::Ground, seq![control_key(b)])
    } else if is_leading_byte_width_2(b) {
        (DecoderState::Utf8 { raw: seq![b], need: 2 }, seq![])
    } else if is_leading_byte_width_3(b) {
        (DecoderState::Utf8 { raw: seq![b], need: 3 }, seq![])
    } else if is_leading_byte_width_4(b) {
        (DecoderState::Utf8 { raw: seq![b], need: 4 }, seq![])
    } else {
        (DecoderState::Ground, seq![EventModel::Unsupported(seq![b])])
    }
}

/// The empty CSI collection state, entered right after `ESC [`.
pub open spec fn csi_start() -> DecoderState {
    DecoderState::Csi { raw: seq![], marker: 0, params: seq![], cur: 0, ok: true }
}

/// What one byte does right after the escape introducer: it selects a family.
/// A bracket opens a CSI sequence; a letter or digit is a single-character
/// escape, the key typed with alt held; a further introducer resolves the
/// pending one to a lone escape key; any other byte matches no family, so the
/// pending introducer resolves to a lone escape key and the byte is read as if
/// no sequence were in progress.
pub open spec fn escape_step(b: u8) -> (DecoderState, Seq<EventModel>) {
    if b == CSI_BRACKET {
        (csi_start(), seq![])
    } else if is_alt_escapable(b) {
        (
            DecoderState::Ground,
            seq![EventModel::Key(KeyEvent { key: Key::Char(b as char), mods: alt_mods() })],
        )
    } else if b == ESC {
        (DecoderState::EscapeSeen, seq![key_event(Key::Esc)])
    } else {
        let (st, evs) = ground_step(b);
        (st, seq![key_event(Key::Esc)] + evs)
    }
}

/// The event for a completed multi-byte text unit whose bytes are `raw`
/// (a lead byte and its continuation bytes): the encoded character, or the
/// raw bytes when they are an overlong or out-of-range encoding.
pub open spec fn utf8_complete(raw: Seq<u8>) -> EventModel
    recommends
        2 <= raw.len() <= 4,
{
    let cp = if raw.len() == 2 {
        codepoint_width_2(raw[0], raw[1])
    } else if raw.len() == 3 {
        codepoint_width_3(raw[0], raw[1], raw[2])
    } else {
        codepoint_width_4(raw[0], raw[1], raw[2], raw[3])
    };
    if not_overlong_encoding(cp, raw.len() as int) && not_surrogate(cp) && cp <= 0x10ffff {
        key_event(Key::Char(cp as char))
    } else {
        EventModel::Unsupported(raw)
    }
}

/// What one byte does while continuation bytes of a text unit are awaited:
/// a continuation byte extends the unit and the last one completes it; any
/// other byte makes the accumulated bytes an unsupported run, after which the
/// byte is read as if no sequence were in progress.
pub open spec fn utf8_step(raw: Seq<u8>, need: u8, b: u8) -> (DecoderState, Seq<EventModel>) {
    if is_continuation_byte(b) {
        let raw2 = raw.push(b);
        if raw2.len() == need {
            (DecoderState::Ground, seq![utf8_complete(raw2)])
        } else {
            (DecoderState::Utf8 { raw: raw2, need }, seq![])
        }
    } else {
        let (st, evs) = ground_step(b);
        (st, seq![EventModel::Unsupported(raw)] + evs)
    }
}

/// The full byte run of a CSI sequence whose collected bytes are `raw`:
/// introducer, bracket, collected bytes.
pub open spec fn csi_bytes(raw: Seq<u8>) -> Seq<u8> {
    seq![ESC, CSI_BRACKET] + raw
}

/// The modifier flags encoded by a CSI modifier parameter (2 through 8).
pub open spec fn csi_mods(m: u16) -> Mods
    recommends
        2 <= m <= 8,
{
    let bits = (m - 1) as u16;
    Mods { shift: bits & 1 != 0, alt: bits & 2 != 0, ctrl: bits & 4 != 0 }
}

/// The named key selected by a CSI final letter in `A`..`H`, if any.
pub open spec fn csi_letter_key(fin: u8) -> Option<Key> {
    if fin == 0x41 {
        Some(Key::Up)
    } else if fin == 0x42 {
        Some(Key::Down)
    } else if fin == 0x43 {
        Some(Key::Right)
    } else if fin == 0x44 {
        Some(Key::Left)
    } else if fin == 0x46 {
        Some(Key::End)
    } else if fin == 0x48 {
        Some(Key::Home)
    } else {
        None
    }
}

/// The named key selected by the leading parameter of a `~`-terminated CSI
/// sequence, if any.
pub open spec fn csi_tilde_key(n: u16) -> Option<Key> {
    if n == 1 || n == 7 {
        Some(Key::Home)
    } else if n == 2 {
        Some(Key::Insert)
    } else if n == 3 {
        Some(Key::Delete)
    } else if n == 4 || n == 8 {
        Some(Key::End)
    } else if n == 5 {
        Some(Key::PageUp)
    } else if n == 6 {
        Some(Key::PageDown)
    } else if 11 <= n <= 15 {
        Some(Key::F((n - 10) as u8))
    } else if 17 <= n <= 21 {
        Some(Key::F((n - 11) as u8))
    } else if n == 23 || n == 24 {
        Some(Key::F((n - 12) as u8))
    } else {
        None
    }
}

/// The event of a finished key-family CSI sequence: a bare final letter is
/// the plain key; parameters `1;m` carry modifier flags; a `~` terminator
/// selects the key by its leading parameter. Anything else is the raw bytes
/// as an unsupported run.
pub open spec fn csi_key_event(ps: Seq<u16>, fin: u8, all: Seq<u8>) -> EventModel {
    match csi_letter_key(fin) {
        Some(k) => {
            if ps.len() == 0 {
                key_event(k)
            } else if ps.len() == 2 && ps[0] == 1 && 2 <= ps[1] <= 8 {
                EventModel::Key(KeyEvent { key: k, mods: csi_mods(ps[1]) })
            } else {
                EventModel::Unsupported(all)
            }
        },
        None => {
            if fin == 0x7e {
                if ps.len() == 1 || (ps.len() == 2 && 2 <= ps[1] <= 8) {
                    match csi_tilde_key(ps[0]) {
                        Some(k) => {
                            let mods = if ps.len() == 2 {
                                csi_mods(ps[1])
                            } else {
                                no_mods()
                            };
                            EventModel::Key(KeyEvent { key: k, mods })
                        },
                        None => EventModel::Unsupported(all),
                    }
                } else {
                    EventModel::Unsupported(all)
                }
            } else {
                EventModel::Unsupported(all)
            }
        },
    }
}

/// The event of a finished pointer report (`ESC [ <` parameters, final `M`
/// or `m`): button identity and press, release or drag are derived from the
/// button-id parameter, the coordinates are the two that follow. A report
/// not of that shape is the raw bytes as an unsupported run.
pub open spec fn csi_mouse_event(ps: Seq<u16>, fin: u8, all: Seq<u8>) -> EventModel {
    if (fin == 0x4d || fin == 0x6d) && ps.len() == 3 && ps[1] >= 1 && ps[2] >= 1 {
        let cb = ps[0];
        let mods = Mods { shift: cb & 4 != 0, alt: cb & 8 != 0, ctrl: cb & 16 != 0 };
        if fin == 0x6d {
            EventModel::Mouse(
                MouseEvent { kind: MouseKind::Release, mods, col: ps[1], row: ps[2] },
            )
        } else if cb & 32 != 0 {
            EventModel::Mouse(MouseEvent { kind: MouseKind::Drag, mods, col: ps[1], row: ps[2] })
        } else if cb & 64 != 0 {
            let button = if cb & 1 == 0 {
                MouseButton::WheelUp
            } else {
                MouseButton::WheelDown
            };
            EventModel::Mouse(
                MouseEvent { kind: MouseKind::Press(button), mods, col: ps[1], row: ps[2] },
            )
        } else if cb & 3 == 0 {
            EventModel::Mouse(
                MouseEvent {
                    kind: MouseKind::Press(MouseButton::Left),
                    mods,
                    col: ps[1],
                    row: ps[2],
                },
            )
        } else if cb & 3 == 1 {
            EventModel::Mouse(
                MouseEvent {
                    kind: MouseKind::Press(MouseButton::Middle),
                    mods,
                    col: ps[1],
                    row: ps[2],
                },
            )
        } else if cb & 3 == 2 {
            EventModel::Mouse(
                MouseEvent {
                    kind: MouseKind::Press(MouseButton::Right),
                    mods,
                    col: ps[1],
                    row: ps[2],
                },
            )
        } else {
            EventModel::Unsupported(all)
        }
    } else {
        EventModel::Unsupported(all)
    }
}

/// The event of a CSI sequence closed by the final byte `fin`. The parameter
/// list is the completed parameters plus the one being read, or empty when no
/// parameter byte was seen at all; the `<` marker selects the pointer-report
/// reading, a `?` marker and oversized parameters make the run unsupported.
pub open spec fn csi_finish(
    raw: Seq<u8>,
    marker: u8,
    params: Seq<u16>,
    cur: u16,
    ok: bool,
    fin: u8,
) -> EventModel {
    let all = csi_bytes(raw).push(fin);
    let marker_len: int = if marker == 0 {
        0
    } else {
        1
    };
    let ps = if raw.len() > marker_len {
        params.push(cur)
    } else {
        seq![]
    };
    if !ok {
        EventModel::Unsupported(all)
    } else if marker == 0x3c {
        csi_mouse_event(ps, fin, all)
    } else if marker == 0x3f {
        EventModel::Unsupported(all)
    } else {
        csi_key_event(ps, fin, all)
    }
}

/// What one byte does while CSI parameters are collected: a byte in the
/// final range closes the sequence; digits, the separator, and a leading
/// private marker accumulate, up to the cap; anything else makes the whole
/// run, this byte included, one unsupported event.
pub open spec fn csi_step(
    raw: Seq<u8>,
    marker: u8,
    params: Seq<u16>,
    cur: u16,
    ok: bool,
    b: u8,
) -> (DecoderState, Seq<EventModel>) {
    if 0x40 <= b <= 0x7e {
        (DecoderState::Ground, seq![csi_finish(raw, marker, params, cur, ok, b)])
    } else if raw.len() >= CSI_MAX_PARAM_BYTES as int {
        (DecoderState::Ground, seq![EventModel::Unsupported(csi_bytes(raw).push(b))])
    } else if is_ascii_digit(b) {
        let v = cur * 10 + (b - 0x30);
        if v <= CSI_MAX_PARAM_VALUE {
            (
                DecoderState::Csi { raw: raw.push(b), marker, params, cur: v as u16, ok },
                seq![],
            )
        } else {
            (DecoderState::Csi { raw: raw.push(b), marker, params, cur, ok: false }, seq![])
        }
    } else if b == 0x3b {
        (
            DecoderState::Csi { raw: raw.push(b), marker, params: params.push(cur), cur: 0, ok },
            seq![],
        )
    } else if (b == 0x3c || b == 0x3f) && raw.len() == 0 {
        (DecoderState::Csi { raw: raw.push(b), marker: b, params, cur, ok }, seq![])
    } else {
        (DecoderState::Ground, seq![EventModel::Unsupported(csi_bytes(raw).push(b))])
    }
}

/// One step of the decoder: the state and the events emitted for one byte.
pub open spec fn step(st: DecoderState, b: u8) -> (DecoderState, Seq<EventModel>) {
    match st {
        DecoderState::Ground => ground_step(b),
        DecoderState::EscapeSeen => escape_step(b),
        DecoderState::Csi { raw, marker, params, cur, ok } => csi_step(
            raw,
            marker,
            params,
            cur,
            ok,
            b,
        ),
        DecoderState::Utf8 { raw, need } => utf8_step(raw, need, b),
    }
}

/// The decoder run over a whole byte sequence: the final state and all
/// events emitted, in order.
pub open spec fn run(st: DecoderState, bs: Seq<u8>) -> (DecoderState, Seq<EventModel>)
    decreases bs.len(),
{
    if bs.len() == 0 {
        (st, seq![])
    } else {
        let first = step(st, bs[0]);
        let rest = run(first.0, bs.skip(1));
        (rest.0, first.1 + rest.1)
    }
}

/// The events owed when the caller signals that no more input is coming:
/// a pending introducer resolves to a lone escape key, and a partial CSI or
/// text unit becomes an unsupported run. The decoder returns to `Ground`.
pub open spec fn flush_events(st: DecoderState) -> Seq<EventModel> {
    match st {
        DecoderState::Ground => seq![],
        DecoderState::EscapeSeen => seq![key_event(Key::Esc)],
        DecoderState::Csi { raw, .. } => seq![EventModel::Unsupported(csi_bytes(raw))],
        DecoderState::Utf8 { raw, .. } => seq![EventModel::Unsupported(raw)],
    }
}

/// Running the decoder over `a + b` is the same as running it over `a` and
/// then, from the state reached, over `b`: both the final state and the
/// emitted events agree.
pub proof fn lemma_run_append(st: DecoderState, a: Seq<u8>, b: Seq<u8>)
    ensures
        run(st, a + b).0 == run(run(st, a).0, b).0,
        run(st, a + b).1 =~= run(st, a).1 + run(run(st, a).0, b).1,
    decreases a.len(),
{
    if a.len() == 0 {
        assert(a + b =~= b);
        assert(run(st, a).1 + run(run(st, a).0, b).1 =~= run(st, b).1);
    } else {
        let first = step(st, a[0]);
        assert((a + b)[0] == a[0]);
        assert((a + b).skip(1) =~= a.skip(1) + b);
        lemma_run_append(first.0, a.skip(1), b);
        assert(run(st, a + b).1 =~= first.1 + run(first.0, a.skip(1) + b).1);
        assert(first.1 + (run(first.0, a.skip(1)).1 + run(run(first.0, a.skip(1)).0, b).1)
            =~= (first.1 + run(first.0, a.skip(1)).1) + run(run(first.0, a.skip(1)).0, b).1);
    }
}

/// Running the decoder over a one-byte sequence is one step.
pub proof fn lemma_run_one(st: DecoderState, b: u8)
    ensures
        run(st, seq![b]).0 == step(st, b).0,
        run(st, seq![b]).1 =~= step(st, b).1,
{
    reveal_with_fuel(run, 2);
    assert(seq![b].skip(1) =~= Seq::<u8>::empty());
    assert(run(st, seq![b]).1 =~= step(st, b).1 + run(step(st, b).0, seq![b].skip(1)).1);
    assert(step(st, b).1 + Seq::<EventModel>::empty() =~= step(st, b).1);
}

/// The bytes of a sequence of chunks, in order.
pub open spec fn concat_chunks(chunks: Seq<Seq<u8>>) -> Seq<u8>
    decreases chunks.len(),
{
    if chunks.len() == 0 {
        seq![]
    } else {
        chunks[0] + concat_chunks(chunks.skip(1))
    }
}

/// The decoder run chunk after chunk: the final state and all events
/// emitted over the whole sequence of chunks.
pub open spec fn run_chunks(st: DecoderState, chunks: Seq<Seq<u8>>) -> (
    DecoderState,
    Seq<EventModel>,
)
    decreases chunks.len(),
{
    if chunks.len() == 0 {
        (st, seq![])
    } else {
        let first = run(st, chunks[0]);
        let rest = run_chunks(first.0, chunks.skip(1));
        (rest.0, first.1 + rest.1)
    }
}

/// Chunk boundaries never affect the decoder's output: feeding a byte
/// sequence in any fragmentation — one byte at a time or all at once —
/// reaches the same state and emits the same events as feeding the
/// concatenation whole.
pub proof fn lemma_rechunking(st: DecoderState, chunks: Seq<Seq<u8>>)
    ensures
        run_chunks(st, chunks).0 == run(st, concat_chunks(chunks)).0,
        run_chunks(st, chunks).1 =~= run(st, concat_chunks(chunks)).1,
    decreases chunks.len(),
{
    if chunks.len() == 0 {
    } else {
        let first = run(st, chunks[0]);
        lemma_rechunking(first.0, chunks.skip(1));
        lemma_run_append(st, chunks[0], concat_chunks(chunks.skip(1)));
    }
}

/// The key named by an arrow-direction final letter.
pub open spec fn arrow_key(b: u8) -> Key
    recommends
        0x41 <= b <= 0x44,
{
    if b == 0x41 {
        Key::Up
    } else if b == 0x42 {
        Key::Down
    } else if b == 0x43 {
        Key::Right
    } else {
        Key::Left
    }
}

/// A complete, well-formed arrow-key escape sequence — introducer, bracket,
/// direction letter — fed from `Ground` yields exactly one named-key event
/// and leaves the decoder at `Ground`.
pub proof fn lemma_arrow_sequence(b: u8)
    requires
        0x41 <= b <= 0x44,
    ensures
        run(DecoderState::Ground, seq![ESC, CSI_BRACKET, b]).0 == DecoderState::Ground,
        run(DecoderState::Ground, seq![ESC, CSI_BRACKET, b]).1 =~= seq![key_event(arrow_key(b))],
{
    let s = seq![ESC, CSI_BRACKET, b];
    assert(s.skip(1) =~= seq![CSI_BRACKET, b]);
    lemma_run_append(DecoderState::Ground, seq![ESC, CSI_BRACKET], seq![b]);
    assert(seq![ESC, CSI_BRACKET] + seq![b] =~= s);
    reveal_with_fuel(run, 3);
    assert(seq![ESC, CSI_BRACKET].skip(1) =~= seq![CSI_BRACKET]);
    assert(seq![CSI_BRACKET].skip(1) =~= Seq::<u8>::empty());
    assert(run(DecoderState::Ground, seq![ESC, CSI_BRACKET]).0 == csi_start());
    lemma_run_one(csi_start(), b);
    assert(run(DecoderState::Ground, s).1 =~= run(DecoderState::Ground, seq![ESC, CSI_BRACKET]).1
        + run(csi_start(), seq![b]).1);
}

/// A pending introducer followed by a printable byte that continues no
/// family — not a bracket, not a letter or digit — resolves to a lone
/// escape-key event followed by the printable character's own event: the two
/// are never merged and neither is dropped, and the decoder is back at
/// `Ground`.
pub proof fn lemma_escape_then_unrelated(b: u8)
    requires
        is_printable(b),
        !is_alt_escapable(b),
        b != CSI_BRACKET,
    ensures
        run(DecoderState::Ground, seq![ESC, b]).0 == DecoderState::Ground,
        run(DecoderState::Ground, seq![ESC, b]).1 =~= seq![
            key_event(Key::Esc),
            key_event(Key::Char(b as char)),
        ],
{
    let s = seq![ESC, b];
    assert(s.skip(1) =~= seq![b]);
    lemma_run_one(DecoderState::EscapeSeen, b);
}

} // verus!
