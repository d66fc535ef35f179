//! The executable decoder, proved to follow the state machine in
//! [`crate::decode`] byte for byte.

use vstd::prelude::*;

use crate::decode::{
    csi_bytes, csi_finish, csi_key_event, csi_letter_key, csi_mods, csi_mouse_event, csi_start,
    csi_tilde_key, control_key, flush_events, ground_step, run, step, utf8_complete,
    DecoderState, CSI_BRACKET, CSI_MAX_PARAM_BYTES, CSI_MAX_PARAM_VALUE, ESC,
};
use crate::decode::{lemma_run_append, lemma_run_one};
use crate::event::{
    key_event, no_mods, views_of, EventModel, InputEvent, Key, KeyEvent, Mods, MouseButton,
    MouseEvent, MouseKind,
};

verus! {

/// Which sequence family the decoder is currently matching.
#[derive(Clone, Copy, PartialEq, Eq, Structural)]
enum Tag {
    Ground,
    EscapeSeen,
    Csi,
    Utf8,
}

/// The incremental decoder. It retains at most one partial sequence across
/// calls; feeding it bytes in any fragmentation yields the same events as
/// feeding them all at once (see [`crate::decode::lemma_rechunking`]).
pub struct Decoder {
    tag: Tag,
    raw: Vec<u8>,
    marker: u8,
    params: Vec<u16>,
    cur: u16,
    ok: bool,
    need: u8,
}

impl View for Decoder {
    type V = DecoderState;

    closed spec fn view(&self) -> DecoderState {
        match self.tag {
            Tag::Ground => DecoderState::Ground,
            Tag::EscapeSeen => DecoderState::EscapeSeen,
            Tag::Csi => DecoderState::Csi {
                raw: self.raw@,
                marker: self.marker,
                params: self.params@,
                cur: self.cur,
                ok: self.ok,
            },
            Tag::Utf8 => DecoderState::Utf8 { raw: self.raw@, need: self.need },
        }
    }
}

/// A fresh byte vector holding the same bytes.
fn copy_bytes(v: &Vec<u8>) -> (r: Vec<u8>)
    ensures
        r@ == v@,
{
    let mut r: Vec<u8> = Vec::new();
    let mut i: usize = 0;
    while i < v.len()
        invariant
            i <= v.len(),
            r@ =~= v@.take(i as int),
        decreases v.len() - i,
    {
        r.push(v[i]);
        i += 1;
    }
    proof {
        assert(v@.take(v@.len() as int) =~= v@);
    }
    r
}

/// The full byte run of a CSI sequence: introducer, bracket, the collected
/// bytes, and the final byte.
fn csi_all_vec(raw: &Vec<u8>, fin: u8) -> (r: Vec<u8>)
    ensures
        r@ == csi_bytes(raw@).push(fin),
{
    let mut r: Vec<u8> = Vec::new();
    r.push(ESC);
    r.push(CSI_BRACKET);
    let mut i: usize = 0;
    while i < raw.len()
        invariant
            i <= raw.len(),
            r@ =~= seq![ESC, CSI_BRACKET] + raw@.take(i as int),
        decreases raw.len() - i,
    {
        r.push(raw[i]);
        i += 1;
    }
    r.push(fin);
    proof {
        assert(raw@.take(raw@.len() as int) =~= raw@);
        assert(r@ =~= csi_bytes(raw@).push(fin));
    }
    r
}

/// No modifier held.
fn mods_none() -> (m: Mods)
    ensures
        m == no_mods(),
{
    Mods { shift: false, alt: false, ctrl: false }
}

/// The event of a finished key-family CSI sequence; follows
/// [`csi_key_event`].
fn make_csi_key_event(ps: &Vec<u16>, fin: u8, all: Vec<u8>) -> (e: InputEvent)
    ensures
        e@ == csi_key_event(ps@, fin, all@),
{
    let letter: Option<Key> = if fin == 0x41 {
        Some(Key::Up)
    } else if fin == 0x42 {
        Some(Key::Down)
    } else if fin == 0x43 {
        Some(Key::Right)
    } else if fin == 0x44 {
        Some(Key::Left)
    } else if fin == 0x46 {
        Some(Key::End)
    } else if fin == 0x48 {
        Some(Key::Home)
    } else {
        None
    };
    proof {
        assert(letter == csi_letter_key(fin));
    }
    match letter {
        Some(k) => {
            if ps.len() == 0 {
                InputEvent::Key(KeyEvent { key: k, mods: mods_none() })
            } else if ps.len() == 2 && ps[0] == 1 && 2 <= ps[1] && ps[1] <= 8 {
                InputEvent::Key(KeyEvent { key: k, mods: make_csi_mods(ps[1]) })
            } else {
                InputEvent::Unsupported(all)
            }
        },
        None => {
            if fin == 0x7e && (ps.len() == 1 || (ps.len() == 2 && 2 <= ps[1] && ps[1] <= 8)) {
                let n = ps[0];
                let named: Option<Key> = if n == 1 || n == 7 {
                    Some(Key::Home)
                } else if n == 2 {
                    Some(Key::Insert)
                } else if n == 3 {
                    Some(Key::Delete)
                } else if n == 4 || n == 8 {
                    Some(Key::End)
                } else if n == 5 {
                    Some(Key::PageUp)
                } else if n == 6 {
                    Some(Key::PageDown)
                } else if 11 <= n && n <= 15 {
                    Some(Key::F((n - 10) as u8))
                } else if 17 <= n && n <= 21 {
                    Some(Key::F((n - 11) as u8))
                } else if n == 23 || n == 24 {
                    Some(Key::F((n - 12) as u8))
                } else {
                    None
                };
                proof {
                    assert(named == csi_tilde_key(n));
                }
                match named {
                    Some(k) => {
                        let mods = if ps.len() == 2 {
                            make_csi_mods(ps[1])
                        } else {
                            mods_none()
                        };
                        InputEvent::Key(KeyEvent { key: k, mods })
                    },
                    None => InputEvent::Unsupported(all),
                }
            } else {
                InputEvent::Unsupported(all)
            }
        },
    }
}

/// The modifier flags encoded by a CSI modifier parameter; follows
/// [`csi_mods`].
fn make_csi_mods(m: u16) -> (r: Mods)
    requires
        2 <= m <= 8,
    ensures
        r == csi_mods(m),
{
    let bits = m - 1;
    Mods { shift: bits & 1 != 0, alt: bits & 2 != 0, ctrl: bits & 4 != 0 }
}

/// The event of a finished pointer report; follows [`csi_mouse_event`].
fn make_csi_mouse_event(ps: &Vec<u16>, fin: u8, all: Vec<u8>) -> (e: InputEvent)
    ensures
        e@ == csi_mouse_event(ps@, fin, all@),
{
    if (fin == 0x4d || fin == 0x6d) && ps.len() == 3 && ps[1] >= 1 && ps[2] >= 1 {
        let cb = ps[0];
        let mods = Mods { shift: cb & 4 != 0, alt: cb & 8 != 0, ctrl: cb & 16 != 0 };
        let col = ps[1];
        let row = ps[2];
        if fin == 0x6d {
            InputEvent::Mouse(MouseEvent { kind: MouseKind::Release, mods, col, row })
        } else if cb & 32 != 0 {
            InputEvent::Mouse(MouseEvent { kind: MouseKind::Drag, mods, col, row })
        } else if cb & 64 != 0 {
            let button = if cb & 1 == 0 {
                MouseButton::WheelUp
            } else {
                MouseButton::WheelDown
            };
            InputEvent::Mouse(MouseEvent { kind: MouseKind::Press(button), mods, col, row })
        } else if cb & 3 == 0 {
            InputEvent::Mouse(
                MouseEvent { kind: MouseKind::Press(MouseButton::Left), mods, col, row },
            )
        } else if cb & 3 == 1 {
            InputEvent::Mouse(
                MouseEvent { kind: MouseKind::Press(MouseButton::Middle), mods, col, row },
            )
        } else if cb & 3 == 2 {
            InputEvent::Mouse(
                MouseEvent { kind: MouseKind::Press(MouseButton::Right), mods, col, row },
            )
        } else {
            InputEvent::Unsupported(all)
        }
    } else {
        InputEvent::Unsupported(all)
    }
}

/// Relies on char::from_u32: it returns the character with the given code
/// point, and None exactly on surrogate or out-of-range values.
pub assume_specification[ char::from_u32 ](v: u32) -> (r: Option<char>)
    ensures
        r == (if (v < 0xd800 || (0xe000 <= v && v <= 0x10ffff)) {
            Some(v as char)
        } else {
            None::<char>
        }),
;

/// The event of a completed multi-byte text unit; follows [`utf8_complete`].
fn complete_text_unit(raw: Vec<u8>) -> (e: InputEvent)
    requires
        2 <= raw@.len() <= 4,
    ensures
        e@ == utf8_complete(raw@),
{
    let n = raw.len();
    let cp: u32 = if n == 2 {
        (((raw[0] & 0x1f) as u32) << 6u32) | ((raw[1] & 0x3f) as u32)
    } else if n == 3 {
        (((raw[0] & 0x0f) as u32) << 12u32) | (((raw[1] & 0x3f) as u32) << 6u32) | ((raw[2]
            & 0x3f) as u32)
    } else {
        (((raw[0] & 0x07) as u32) << 18u32) | (((raw[1] & 0x3f) as u32) << 12u32) | (((raw[2]
            & 0x3f) as u32) << 6u32) | ((raw[3] & 0x3f) as u32)
    };
    let in_range = if n == 2 {
        cp >= 0x80
    } else if n == 3 {
        cp >= 0x800
    } else {
        cp >= 0x10000 && cp <= 0x10ffff
    };
    let valid = in_range && !(cp >= 0xd800 && cp <= 0xdfff) && cp <= 0x10ffff;
    if valid {
        let c = char::from_u32(cp).unwrap();
        InputEvent::Key(KeyEvent { key: Key::Char(c), mods: mods_none() })
    } else {
        InputEvent::Unsupported(raw)
    }
}

impl Decoder {
    /// The decoder holds no partial sequence and is consistent.
    pub closed spec fn wf(&self) -> bool {
        self.tag == Tag::Utf8 ==> 1 <= self.raw@.len() < self.need && 2 <= self.need <= 4
    }

    /// A fresh decoder, with no partial sequence pending.
    pub fn new() -> (d: Decoder)
        ensures
            d@ == DecoderState::Ground,
            d.wf(),
    {
        Decoder {
            tag: Tag::Ground,
            raw: Vec::new(),
            marker: 0,
            params: Vec::new(),
            cur: 0,
            ok: true,
            need: 0,
        }
    }

    /// Reads one byte as if no sequence were in progress; follows
    /// [`ground_step`].
    fn ground_byte(&mut self, b: u8, out: &mut Vec<InputEvent>)
        ensures
            final(self).wf(),
            final(self)@ == ground_step(b).0,
            views_of(final(out)@) =~= views_of(old(out)@) + ground_step(b).1,
    {
        if b == ESC {
            self.tag = Tag::EscapeSeen;
        } else if 0x20 <= b && b <= 0x7e {
            self.tag = Tag::Ground;
            out.push(InputEvent::Key(KeyEvent { key: Key::Char(b as char), mods: mods_none() }));
        } else if b < 0x20 || b == 0x7f {
            self.tag = Tag::Ground;
            let e = if b == 0x09 {
                InputEvent::Key(KeyEvent { key: Key::Tab, mods: mods_none() })
            } else if b == 0x0a || b == 0x0d {
                InputEvent::Key(KeyEvent { key: Key::Enter, mods: mods_none() })
            } else if b == 0x08 || b == 0x7f {
                InputEvent::Key(KeyEvent { key: Key::Backspace, mods: mods_none() })
            } else if b == 0x00 {
                InputEvent::Key(KeyEvent { key: Key::Null, mods: mods_none() })
            } else if b <= 0x1a {
                let c = (b - 1 + 0x61) as char;
                InputEvent::Key(
                    KeyEvent {
                        key: Key::Char(c),
                        mods: Mods { shift: false, alt: false, ctrl: true },
                    },
                )
            } else {
                let mut bytes: Vec<u8> = Vec::new();
                bytes.push(b);
                InputEvent::Unsupported(bytes)
            };
            proof {
                assert(e@ == control_key(b));
            }
            out.push(e);
        } else if 0xc0 <= b && b <= 0xdf {
            self.tag = Tag::Utf8;
            self.raw.clear();
            self.raw.push(b);
            self.need = 2;
        } else if 0xe0 <= b && b <= 0xef {
            self.tag = Tag::Utf8;
            self.raw.clear();
            self.raw.push(b);
            self.need = 3;
        } else if 0xf0 <= b && b <= 0xf7 {
            self.tag = Tag::Utf8;
            self.raw.clear();
            self.raw.push(b);
            self.need = 4;
        } else {
            self.tag = Tag::Ground;
            let mut bytes: Vec<u8> = Vec::new();
            bytes.push(b);
            out.push(InputEvent::Unsupported(bytes));
        }
    }

    /// Feeds one byte to the decoder, appending the events it completes;
    /// follows [`step`].
    pub fn feed_byte(&mut self, b: u8, out: &mut Vec<InputEvent>)
        requires
            old(self).wf(),
        ensures
            final(self).wf(),
            final(self)@ == step(old(self)@, b).0,
            views_of(final(out)@) =~= views_of(old(out)@) + step(old(self)@, b).1,
    {
        match self.tag {
            Tag::Ground => {
                self.ground_byte(b, out);
            },
            Tag::EscapeSeen => {
                if b == CSI_BRACKET {
                    self.tag = Tag::Csi;
                    self.raw.clear();
                    self.params.clear();
                    self.marker = 0;
                    self.cur = 0;
                    self.ok = true;
                    proof {
                        assert(final(self)@ == csi_start());
                    }
                } else if (0x30 <= b && b <= 0x39) || (0x41 <= b && b <= 0x5a) || (0x61 <= b
                    && b <= 0x7a) {
                    self.tag = Tag::Ground;
                    out.push(
                        InputEvent::Key(
                            KeyEvent {
                                key: Key::Char(b as char),
                                mods: Mods { shift: false, alt: true, ctrl: false },
                            },
                        ),
                    );
                } else if b == ESC {
                    self.tag = Tag::EscapeSeen;
                    out.push(InputEvent::Key(KeyEvent { key: Key::Esc, mods: mods_none() }));
                } else {
                    out.push(InputEvent::Key(KeyEvent { key: Key::Esc, mods: mods_none() }));
                    let ghost mid = out@;
                    self.ground_byte(b, out);
                    proof {
                        assert(views_of(final(out)@) =~= views_of(old(out)@) + (seq![
                            key_event(Key::Esc),
                        ] + ground_step(b).1));
                    }
                }
            },
            Tag::Csi => {
                if 0x40 <= b && b <= 0x7e {
                    let all = csi_all_vec(&self.raw, b);
                    let marker_len: usize = if self.marker == 0 {
                        0
                    } else {
                        1
                    };
                    let e: InputEvent;
                    if !self.ok {
                        e = InputEvent::Unsupported(all);
                    } else {
                        if self.raw.len() > marker_len {
                            self.params.push(self.cur);
                        } else {
                            self.params.clear();
                        }
                        if self.marker == 0x3c {
                            e = make_csi_mouse_event(&self.params, b, all);
                        } else if self.marker == 0x3f {
                            e = InputEvent::Unsupported(all);
                        } else {
                            e = make_csi_key_event(&self.params, b, all);
                        }
                    }
                    proof {
                        assert(e@ == csi_finish(
                            old(self)@->Csi_raw,
                            old(self)@->Csi_marker,
                            old(self)@->Csi_params,
                            old(self)@->Csi_cur,
                            old(self)@->Csi_ok,
                            b,
                        ));
                    }
                    out.push(e);
                    self.tag = Tag::Ground;
                } else if self.raw.len() >= CSI_MAX_PARAM_BYTES {
                    let all = csi_all_vec(&self.raw, b);
                    out.push(InputEvent::Unsupported(all));
                    self.tag = Tag::Ground;
                } else if 0x30 <= b && b <= 0x39 {
                    let v: u32 = (self.cur as u32) * 10 + ((b - 0x30) as u32);
                    self.raw.push(b);
                    if v <= CSI_MAX_PARAM_VALUE {
                        self.cur = v as u16;
                    } else {
                        self.ok = false;
                    }
                } else if b == 0x3b {
                    self.raw.push(b);
                    self.params.push(self.cur);
                    self.cur = 0;
                } else if (b == 0x3c || b == 0x3f) && self.raw.len() == 0 {
                    self.raw.push(b);
                    self.marker = b;
                } else {
                    let all = csi_all_vec(&self.raw, b);
                    out.push(InputEvent::Unsupported(all));
                    self.tag = Tag::Ground;
                }
            },
            Tag::Utf8 => {
                if 0x80 <= b && b <= 0xbf {
                    self.raw.push(b);
                    if self.raw.len() == self.need as usize {
                        let mut unit: Vec<u8> = Vec::new();
                        core::mem::swap(&mut unit, &mut self.raw);
                        let e = complete_text_unit(unit);
                        out.push(e);
                        self.tag = Tag::Ground;
                    }
                } else {
                    let mut pending: Vec<u8> = Vec::new();
                    core::mem::swap(&mut pending, &mut self.raw);
                    out.push(InputEvent::Unsupported(pending));
                    let ghost mid = out@;
                    self.ground_byte(b, out);
                    proof {
                        assert(views_of(final(out)@) =~= views_of(old(out)@) + (seq![
                            EventModel::Unsupported(old(self)@->Utf8_raw),
                        ] + ground_step(b).1));
                    }
                }
            },
        }
    }

    /// Feeds a chunk of bytes, returning the events completed by it, in
    /// order; follows [`run`]. Chunk boundaries never affect the decoded
    /// events.
    pub fn feed(&mut self, bytes: &[u8]) -> (out: Vec<InputEvent>)
        requires
            old(self).wf(),
        ensures
            final(self).wf(),
            final(self)@ == run(old(self)@, bytes@).0,
            views_of(out@) =~= run(old(self)@, bytes@).1,
    {
        let ghost st0 = self@;
        let mut out: Vec<InputEvent> = Vec::new();
        let mut i: usize = 0;
        while i < bytes.len()
            invariant
                self.wf(),
                i <= bytes.len(),
                self@ == run(st0, bytes@.take(i as int)).0,
                views_of(out@) =~= run(st0, bytes@.take(i as int)).1,
            decreases bytes.len() - i,
        {
            let ghost pre = self@;
            let b = bytes[i];
            self.feed_byte(b, &mut out);
            proof {
                lemma_run_append(st0, bytes@.take(i as int), seq![b]);
                lemma_run_one(pre, b);
                assert(bytes@.take(i as int) + seq![b] =~= bytes@.take(i as int + 1));
            }
            i += 1;
        }
        proof {
            assert(bytes@.take(bytes@.len() as int) =~= bytes@);
        }
        out
    }

    /// Signals that no more input is forthcoming: a pending introducer is
    /// resolved to a lone escape key, a partial sequence to an unsupported
    /// run; follows [`flush_events`]. The decoder is reset to `Ground`.
    pub fn finish(&mut self) -> (out: Vec<InputEvent>)
        requires
            old(self).wf(),
        ensures
            final(self).wf(),
            final(self)@ == DecoderState::Ground,
            views_of(out@) =~= flush_events(old(self)@),
    {
        let mut out: Vec<InputEvent> = Vec::new();
        match self.tag {
            Tag::Ground => {},
            Tag::EscapeSeen => {
                out.push(InputEvent::Key(KeyEvent { key: Key::Esc, mods: mods_none() }));
            },
            Tag::Csi => {
                let mut r: Vec<u8> = Vec::new();
                r.push(ESC);
                r.push(CSI_BRACKET);
                let mut rest = copy_bytes(&self.raw);
                r.append(&mut rest);
                proof {
                    assert(r@ =~= csi_bytes(old(self)@->Csi_raw));
                }
                out.push(InputEvent::Unsupported(r));
            },
            Tag::Utf8 => {
                let mut pending: Vec<u8> = Vec::new();
                core::mem::swap(&mut pending, &mut self.raw);
                out.push(InputEvent::Unsupported(pending));
            },
        }
        self.tag = Tag::Ground;
        out
    }
}

} // verus!

