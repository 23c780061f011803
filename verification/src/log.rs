//! Line-oriented log sink: an append-only buffer of byte-string lines.
//! Lines attributed to a subprocess carry a `[pid] ` prefix.

use crate::bytes::{dec_digits, u32_dec};
use vstd::prelude::*;

verus! {

/// Backing store of the log: the ordered lines written so far.
pub struct LogView {
    buffer: Vec<Vec<u8>>,
}

/// Append-only, line-oriented log.
pub struct Log {
    inner: LogView,
}

/// A subprocess line as recorded: `[` pid `] ` text.
pub open spec fn process_line(pid: nat, text: Seq<u8>) -> Seq<u8> {
    seq![91u8] + dec_digits(pid) + seq![93u8, 32u8] + text
}

impl View for Log {
    type V = Seq<Seq<u8>>;

    closed spec fn view(&self) -> Seq<Seq<u8>> {
        self.inner.buffer.deep_view()
    }
}

impl Log {
    pub fn new() -> (r: Log)
        ensures
            r@ == Seq::<Seq<u8>>::empty(),
    {
        let r = Log { inner: LogView { buffer: Vec::new() } };
        assert(r@ =~~= Seq::<Seq<u8>>::empty());
        r
    }

    /// Record one line.
    pub fn append(&mut self, text: &Vec<u8>)
        ensures
            final(self)@ == old(self)@.push(text@),
    {
        let line = copy_bytes(text);
        self.inner.buffer.push(line);
        assert(self@ =~~= old(self)@.push(text@));
    }

    /// Record one line of subprocess output, prefixed with the process id.
    pub fn append_process(&mut self, pid: u32, text: &Vec<u8>)
        ensures
            final(self)@ == old(self)@.push(process_line(pid as nat, text@)),
    {
        let mut line: Vec<u8> = Vec::new();
        line.push(91);
        let digits = u32_dec(pid);
        crate::bytes::push_all(&mut line, &digits);
        line.push(93);
        line.push(32);
        crate::bytes::push_all(&mut line, text);
        assert(line@ =~= process_line(pid as nat, text@));
        self.inner.buffer.push(line);
        assert(self@ =~~= old(self)@.push(process_line(pid as nat, text@)));
    }

    /// The most recent line, or an empty line when nothing was logged yet.
    pub fn get_last_log(&self) -> (r: Vec<u8>)
        ensures
            r@ == if self@.len() == 0 {
                Seq::<u8>::empty()
            } else {
                self@.last()
            },
    {
        let n = self.inner.buffer.len();
        if n == 0 {
            let r: Vec<u8> = Vec::new();
            assert(r@ =~= Seq::<u8>::empty());
            r
        } else {
            copy_bytes(&self.inner.buffer[n - 1])
        }
    }

    /// All lines, oldest first.
    pub fn get_all_logs(&self) -> (r: &Vec<Vec<u8>>)
        ensures
            r.deep_view() == self@,
    {
        &self.inner.buffer
    }

    /// Drop every recorded line.
    pub fn clear(&mut self)
        ensures
            final(self)@ == Seq::<Seq<u8>>::empty(),
    {
        self.inner.buffer.clear();
        assert(self@ =~~= Seq::<Seq<u8>>::empty());
    }

    /// Number of recorded lines.
    pub fn len(&self) -> (r: usize)
        ensures
            r == self@.len(),
    {
        self.inner.buffer.len()
    }
}

/// An informational line as recorded.
pub open spec fn info_line(msg: Seq<u8>) -> Seq<u8> {
    crate::text::level_info() + msg
}

/// An error line as recorded.
pub open spec fn error_line(msg: Seq<u8>) -> Seq<u8> {
    crate::text::level_error() + msg
}

/// Record a message at the informational level.
pub fn log_info(log: &mut Log, msg: &Vec<u8>)
    ensures
        final(log)@ == old(log)@.push(info_line(msg@)),
{
    let mut line = crate::text::level_info_v();
    crate::bytes::push_all(&mut line, msg);
    log.append(&line);
}

/// Record a message at the error level.
pub fn log_error(log: &mut Log, msg: &Vec<u8>)
    ensures
        final(log)@ == old(log)@.push(error_line(msg@)),
{
    let mut line = crate::text::level_error_v();
    crate::bytes::push_all(&mut line, msg);
    log.append(&line);
}

/// Plain copy of a byte string.
pub fn copy_bytes(src: &Vec<u8>) -> (r: Vec<u8>)
    ensures
        r@ == src@,
{
    let mut r: Vec<u8> = Vec::new();
    crate::bytes::push_all(&mut r, src);
    assert(r@ =~= src@);
    r
}

} // verus!
