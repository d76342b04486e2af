//! The outgoing byte buffer of a session: a TUI writes into it, marks it
//! flushed at the end of a draw, and the runtime drains it to the client.
use vstd::prelude::*;

verus! {

/// Buffered output for one SSH channel.
pub struct SinkState {
    /// Bytes written and not yet handed out.
    pub sink: Vec<u8>,
    /// `flush` was called since the last hand-out.
    pub flushing: bool,
    /// The channel was closed: nothing more is sent.
    pub closed: bool,
}

/// Append `s` to `v`.
pub fn append_bytes(v: &mut Vec<u8>, s: &[u8])
    ensures
        final(v)@ == old(v)@ + s@,
{
    let mut i: usize = 0;
    while i < s.len()
        invariant
            i <= s@.len(),
            v@ == old(v)@ + s@.subrange(0, i as int),
        decreases s@.len() - i,
    {
        v.push(s[i]);
        i += 1;
        proof {
            assert(s@.subrange(0, i as int) =~= s@.subrange(0, i - 1) + seq![s@[i - 1]]);
        }
    }
    proof {
        assert(s@.subrange(0, s@.len() as int) =~= s@);
    }
}

/// `LeaveAlternateScreen`'s escape sequence: `ESC [ ? 1049 l`.
pub open spec fn spec_leave_alternate_screen() -> Seq<char> {
    "\x1b[?1049l"@
}

/// `DisableMouseCapture`'s escape sequence: the mouse modes 1006, 1015,
/// 1003, 1002 and 1000 switched off, in that order.
pub open spec fn spec_disable_mouse_capture() -> Seq<char> {
    "\x1b[?1006l\x1b[?1015l\x1b[?1003l\x1b[?1002l\x1b[?1000l"@
}

/// `Clear(ClearType::All)`'s escape sequence: `ESC [ 2 J`.
pub open spec fn spec_clear_all() -> Seq<char> {
    "\x1b[2J"@
}

/// `Show`'s escape sequence (cursor visible): `ESC [ ? 25 h`.
pub open spec fn spec_show_cursor() -> Seq<char> {
    "\x1b[?25h"@
}

/// The terminal-restore sequence: leave the alternate screen, stop mouse
/// reports, clear the screen, show the cursor.
pub open spec fn spec_terminal_restore() -> Seq<char> {
    spec_leave_alternate_screen() + spec_disable_mouse_capture() + spec_clear_all() + spec_show_cursor()
}

/// The bytes of an ASCII text.
pub open spec fn spec_ascii_bytes(s: Seq<char>) -> Seq<u8> {
    s.map_values(|c: char| c as u8)
}

/// `crossterm::terminal::LeaveAlternateScreen`'s ANSI form, as bytes.
#[verifier::external_body]
fn leave_alternate_screen_ansi() -> (v: Vec<u8>)
    ensures
        v@ == spec_ascii_bytes(spec_leave_alternate_screen()),
{
    let mut s = String::new();
    let _ = crossterm::Command::write_ansi(&crossterm::terminal::LeaveAlternateScreen, &mut s);
    s.into_bytes()
}

/// `crossterm::event::DisableMouseCapture`'s ANSI form, as bytes.
#[verifier::external_body]
fn disable_mouse_capture_ansi() -> (v: Vec<u8>)
    ensures
        v@ == spec_ascii_bytes(spec_disable_mouse_capture()),
{
    let mut s = String::new();
    let _ = crossterm::Command::write_ansi(&crossterm::event::DisableMouseCapture, &mut s);
    s.into_bytes()
}

/// `crossterm::terminal::Clear(ClearType::All)`'s ANSI form, as bytes.
#[verifier::external_body]
fn clear_all_ansi() -> (v: Vec<u8>)
    ensures
        v@ == spec_ascii_bytes(spec_clear_all()),
{
    let mut s = String::new();
    let _ = crossterm::Command::write_ansi(
        &crossterm::terminal::Clear(crossterm::terminal::ClearType::All),
        &mut s,
    );
    s.into_bytes()
}

/// `crossterm::cursor::Show`'s ANSI form, as bytes.
#[verifier::external_body]
fn show_cursor_ansi() -> (v: Vec<u8>)
    ensures
        v@ == spec_ascii_bytes(spec_show_cursor()),
{
    let mut s = String::new();
    let _ = crossterm::Command::write_ansi(&crossterm::cursor::Show, &mut s);
    s.into_bytes()
}

proof fn lemma_ascii_bytes_concat(a: Seq<char>, b: Seq<char>)
    ensures
        spec_ascii_bytes(a + b) == spec_ascii_bytes(a) + spec_ascii_bytes(b),
{
    assert(spec_ascii_bytes(a + b) =~= spec_ascii_bytes(a) + spec_ascii_bytes(b));
}

/// The terminal-restore sequence, as bytes.
pub fn terminal_restore_bytes() -> (v: Vec<u8>)
    ensures
        v@ == spec_ascii_bytes(spec_terminal_restore()),
{
    let mut v = leave_alternate_screen_ansi();
    let b = disable_mouse_capture_ansi();
    let c = clear_all_ansi();
    let d = show_cursor_ansi();
    append_bytes(&mut v, b.as_slice());
    append_bytes(&mut v, c.as_slice());
    append_bytes(&mut v, d.as_slice());
    proof {
        let l = spec_leave_alternate_screen();
        let m = spec_disable_mouse_capture();
        let cl = spec_clear_all();
        let sh = spec_show_cursor();
        lemma_ascii_bytes_concat(l, m);
        lemma_ascii_bytes_concat(l + m, cl);
        lemma_ascii_bytes_concat(l + m + cl, sh);
    }
    v
}

/// The abstract state of a buffer: bytes held, flush mark, closed mark.
pub struct SinkView {
    pub sink: Seq<u8>,
    pub flushing: bool,
    pub closed: bool,
}

impl View for SinkState {
    type V = SinkView;

    open spec fn view(&self) -> SinkView {
        SinkView { sink: self.sink@, flushing: self.flushing, closed: self.closed }
    }
}

/// After `write(buf)`: the bytes are appended.
pub open spec fn spec_write(s: SinkView, buf: Seq<u8>) -> SinkView {
    SinkView { sink: s.sink + buf, ..s }
}

/// After `flush()`: marked ready to send.
pub open spec fn spec_flush(s: SinkView) -> SinkView {
    SinkView { flushing: true, ..s }
}

/// After everything was handed out: empty and unflushed.
pub open spec fn spec_drained(s: SinkView) -> SinkView {
    SinkView { sink: Seq::empty(), flushing: false, ..s }
}

/// What an awaited send hands out: the buffer when flushed, else nothing.
pub open spec fn spec_send_data(s: SinkView) -> Option<Seq<u8>> {
    if s.flushing { Some(s.sink) } else { None }
}

/// The state after an awaited send.
pub open spec fn spec_after_send(s: SinkView) -> SinkView {
    if s.flushing { spec_drained(s) } else { s }
}

/// What a background send that leaves the channel open hands out: nothing
/// once closed or when nothing is buffered, else the buffer.
pub open spec fn spec_background_data(s: SinkView) -> Option<Seq<u8>> {
    if s.closed || s.sink.len() == 0 { None } else { Some(s.sink) }
}

/// The state after such a background send.
pub open spec fn spec_after_background(s: SinkView) -> SinkView {
    if s.closed { s } else { spec_drained(s) }
}

/// The state after writing the terminal-restore sequence and flushing.
pub open spec fn spec_after_restore(s: SinkView) -> SinkView {
    spec_flush(spec_write(s, spec_ascii_bytes(spec_terminal_restore())))
}

/// What closing hands out: nothing once closed, else the buffer followed by
/// the terminal-restore sequence.
pub open spec fn spec_close_data(s: SinkView) -> Option<Seq<u8>> {
    if s.closed { None } else { Some(s.sink + spec_ascii_bytes(spec_terminal_restore())) }
}

/// The state after closing: empty, unflushed and closed for good.
pub open spec fn spec_after_close(s: SinkView) -> SinkView {
    if s.closed { s } else { SinkView { sink: Seq::empty(), flushing: false, closed: true } }
}

/// What the drop fallback hands out: as closing does, the buffer followed
/// by the terminal-restore sequence, unless already closed.
pub open spec fn spec_drop_data(s: SinkView) -> Option<Seq<u8>> {
    spec_close_data(s)
}

/// The state after the drop fallback: closed for good, as after closing.
pub open spec fn spec_after_drop(s: SinkView) -> SinkView {
    spec_after_close(s)
}

impl SinkState {
    /// An empty, open, unflushed buffer.
    pub fn new() -> (s: SinkState)
        ensures
            s@ == (SinkView { sink: Seq::empty(), flushing: false, closed: false }),
    {
        let s = SinkState { sink: Vec::new(), flushing: false, closed: false };
        proof {
            assert(s@.sink =~= Seq::<u8>::empty());
        }
        s
    }

    /// `Write::write`: buffer all of `buf`; its length is returned.
    pub fn write(&mut self, buf: &[u8]) -> (n: usize)
        ensures
            n == buf@.len(),
            final(self)@ == spec_write(old(self)@, buf@),
    {
        append_bytes(&mut self.sink, buf);
        buf.len()
    }

    /// `Write::flush`: mark the buffer ready to be sent.
    pub fn flush(&mut self)
        ensures
            final(self)@ == spec_flush(old(self)@),
    {
        self.flushing = true;
    }

    /// Hand out everything buffered and reset the flush mark.
    fn take_all(&mut self) -> (data: Vec<u8>)
        ensures
            data@ == old(self)@.sink,
            final(self)@ == spec_drained(old(self)@),
    {
        let mut data = Vec::new();
        std::mem::swap(&mut data, &mut self.sink);
        self.flushing = false;
        proof {
            assert(self@.sink =~= Seq::<u8>::empty());
        }
        data
    }

    /// What an awaited send drains: nothing (`None`) when `flush` was not
    /// called since the last send, with the buffer left as it is; else all
    /// buffered bytes, leaving the buffer empty and unflushed.
    pub fn take_for_send(&mut self) -> (data: Option<Vec<u8>>)
        ensures
            match data {
                Some(d) => spec_send_data(old(self)@) == Some(d@),
                None => spec_send_data(old(self)@) is None,
            },
            final(self)@ == spec_after_send(old(self)@),
    {
        if !self.flushing {
            return None;
        }
        Some(self.take_all())
    }

    /// What a background send hands off: all buffered bytes, flushed or
    /// not, leaving the buffer empty and unflushed. Empty data means there
    /// is nothing to send.
    pub fn take_background_payload(&mut self) -> (data: Vec<u8>)
        ensures
            data@ == old(self)@.sink,
            final(self)@ == spec_drained(old(self)@),
    {
        self.take_all()
    }

    /// A background send that skips an empty buffer: `None`, with the buffer
    /// left as it is, when nothing is buffered; else all buffered bytes,
    /// leaving the buffer empty and unflushed.
    pub fn take_background_if_any(&mut self) -> (data: Option<Vec<u8>>)
        ensures
            old(self)@.sink.len() == 0 ==> data is None && final(self)@ == old(self)@,
            old(self)@.sink.len() > 0 ==> (data matches Some(d) && d@ == old(self)@.sink),
            old(self)@.sink.len() > 0 ==> final(self)@ == spec_drained(old(self)@),
    {
        if self.sink.len() == 0 {
            return None;
        }
        Some(self.take_all())
    }

    /// A fire-and-forget flush that leaves the channel open: nothing once the
    /// channel is closed (buffer untouched); else the buffer is emptied and
    /// unflushed, and its bytes are handed out unless there were none.
    pub fn take_background_unless_closed(&mut self) -> (data: Option<Vec<u8>>)
        ensures
            match data {
                Some(d) => spec_background_data(old(self)@) == Some(d@),
                None => spec_background_data(old(self)@) is None,
            },
            final(self)@ == spec_after_background(old(self)@),
    {
        if self.closed {
            return None;
        }
        let data = self.take_all();
        if data.len() == 0 {
            None
        } else {
            Some(data)
        }
    }

    /// Write the terminal-restore sequence and flush, as
    /// `execute!(writer, LeaveAlternateScreen, DisableMouseCapture,
    /// Clear(ClearType::All), Show)` does.
    pub fn write_terminal_restore(&mut self)
        ensures
            final(self)@ == spec_after_restore(old(self)@),
    {
        let restore = terminal_restore_bytes();
        self.write(restore.as_slice());
        self.flush();
    }

    /// Restore the terminal and close: nothing once closed (buffer
    /// untouched); else the restore sequence is appended, everything
    /// buffered is handed out (to be sent, followed by EOF and close), and
    /// the buffer is left empty, unflushed and closed for good.
    pub fn take_for_close(&mut self) -> (data: Option<Vec<u8>>)
        ensures
            match data {
                Some(d) => spec_close_data(old(self)@) == Some(d@),
                None => spec_close_data(old(self)@) is None,
            },
            final(self)@ == spec_after_close(old(self)@),
    {
        if self.closed {
            return None;
        }
        self.write_terminal_restore();
        let data = self.take_all();
        self.closed = true;
        Some(data)
    }

    /// Hand the channel over to whoever writes to it next (the lobby leaving
    /// the screen to a bridged game): restore the terminal and hand out
    /// everything buffered, the restore sequence last, leaving the buffer
    /// empty, unflushed and open; nothing once closed (buffer untouched).
    pub fn take_for_handover(&mut self) -> (data: Option<Vec<u8>>)
        ensures
            match data {
                Some(d) => spec_close_data(old(self)@) == Some(d@),
                None => spec_close_data(old(self)@) is None,
            },
            final(self)@ == spec_after_background(old(self)@),
    {
        if !self.closed {
            self.write_terminal_restore();
        }
        let r = self.take_background_unless_closed();
        proof {
            if !old(self).closed {
                reveal_strlit("\x1b[?1049l");
                assert(spec_leave_alternate_screen().len() > 0);
                assert(spec_ascii_bytes(spec_terminal_restore()).len() > 0);
            }
        }
        r
    }

    /// The fallback when the writer goes away unclosed: restore the terminal
    /// and close, as `take_for_close` does (the bytes are to be sent in the
    /// background, followed by EOF and close); nothing once closed.
    pub fn take_on_drop(&mut self) -> (data: Option<Vec<u8>>)
        ensures
            match data {
                Some(d) => spec_drop_data(old(self)@) == Some(d@),
                None => spec_drop_data(old(self)@) is None,
            },
            final(self)@ == spec_after_drop(old(self)@),
    {
        self.take_for_close()
    }
}

// ---------------------------------------------------------------------------
// Laws
// ---------------------------------------------------------------------------

/// The buffers of several writes, one after the other.
pub open spec fn spec_concat(bufs: Seq<Seq<u8>>) -> Seq<u8>
    decreases bufs.len(),
{
    if bufs.len() == 0 {
        Seq::empty()
    } else {
        spec_concat(bufs.drop_last()) + bufs.last()
    }
}

/// The state after writing each of `bufs` in turn.
pub open spec fn spec_write_all(s: SinkView, bufs: Seq<Seq<u8>>) -> SinkView
    decreases bufs.len(),
{
    if bufs.len() == 0 {
        s
    } else {
        spec_write(spec_write_all(s, bufs.drop_last()), bufs.last())
    }
}

proof fn lemma_write_all_appends(s: SinkView, bufs: Seq<Seq<u8>>)
    ensures
        spec_write_all(s, bufs) == (SinkView { sink: s.sink + spec_concat(bufs), ..s }),
    decreases bufs.len(),
{
    if bufs.len() == 0 {
        assert(s.sink + spec_concat(bufs) =~= s.sink);
    } else {
        lemma_write_all_appends(s, bufs.drop_last());
        assert(s.sink + spec_concat(bufs.drop_last()) + bufs.last() =~= s.sink + spec_concat(bufs));
    }
}

/// Everything written (by any number of writes) and then flushed is what
/// the next send drains, once and in order: the buffer is empty and
/// unflushed afterwards, so a following send without a new flush hands out
/// nothing.
pub proof fn lemma_written_then_flushed_is_sent(s: SinkView, bufs: Seq<Seq<u8>>)
    ensures
        spec_send_data(spec_flush(spec_write_all(s, bufs))) == Some(s.sink + spec_concat(bufs)),
        spec_after_send(spec_flush(spec_write_all(s, bufs))) == spec_drained(s),
        spec_send_data(spec_after_send(spec_flush(spec_write_all(s, bufs)))) is None,
{
    lemma_write_all_appends(s, bufs);
    assert(spec_after_send(spec_flush(spec_write_all(s, bufs))) =~= spec_drained(s));
}

/// A send without a flush since the previous send is a no-op, however much
/// was written in between.
pub proof fn lemma_send_without_flush_is_noop(s: SinkView, a: Seq<u8>)
    requires
        !s.flushing,
    ensures
        spec_send_data(spec_write(s, a)) is None,
        spec_after_send(spec_write(s, a)) == spec_write(s, a),
{
}

/// Two sends in a row: the second hands out nothing.
pub proof fn lemma_second_send_is_noop(s: SinkView)
    ensures
        spec_send_data(spec_after_send(s)) is None,
        spec_after_send(spec_after_send(s)) == spec_after_send(s),
{
}

/// Closing is idempotent: a second close, a later background send and the
/// drop fallback all hand out nothing and change nothing.
pub proof fn lemma_close_is_final(s: SinkView)
    ensures
        spec_after_close(s).closed,
        spec_close_data(spec_after_close(s)) is None,
        spec_after_close(spec_after_close(s)) == spec_after_close(s),
        spec_background_data(spec_after_close(s)) is None,
        spec_after_background(spec_after_close(s)) == spec_after_close(s),
        spec_drop_data(spec_after_close(s)) is None,
        spec_after_drop(spec_after_close(s)) == spec_after_close(s),
{
}

/// The drop fallback closes: it sends what was buffered, then the
/// terminal-restore sequence, and leaves the buffer closed for good.
pub proof fn lemma_drop_closes(s: SinkView)
    requires
        !s.closed,
    ensures
        spec_drop_data(s) == Some(s.sink + spec_ascii_bytes(spec_terminal_restore())),
        spec_after_drop(s).closed,
{
}

/// Closing an open buffer sends what was buffered, then the terminal-restore
/// sequence.
pub proof fn lemma_close_sends_buffer_then_restore(s: SinkView, a: Seq<u8>)
    requires
        !s.closed,
    ensures
        spec_close_data(spec_write(s, a)) == Some(s.sink + a + spec_ascii_bytes(spec_terminal_restore())),
{
}

} // verus!
