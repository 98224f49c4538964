//! The decisions of one resumable transfer: where a file goes, what to request,
//! how to open the destination, and how far the transfer has come.

use vstd::prelude::*;
use crate::descriptor::File;
use crate::text::{decimal, push_decimal};

verus! {

/// The folder a descriptor's file goes to: `output/creator_id`, then the post's
/// identifier when the descriptor has one.
pub open spec fn destination_dir_of(output: Seq<char>, creator_id: Seq<char>, post_id: Option<Seq<char>>) -> Seq<char> {
    let base = output + "/"@ + creator_id;
    match post_id {
        Some(p) => base + "/"@ + p,
        None => base,
    }
}

/// The folder that `file` is written to.
pub fn destination_dir(output: &str, creator_id: &str, file: &File) -> (r: String)
    ensures
        r@ == destination_dir_of(output@, creator_id@, file@.post_id),
{
    let mut r = String::from_str(output);
    r.append("/");
    r.append(creator_id);
    match &file.post_id {
        Some(p) => {
            r.append("/");
            r.append(p.as_str());
        },
        None => {},
    }
    r
}

/// The path that `file` is written to: its folder, then its name.
pub fn destination_path(output: &str, creator_id: &str, file: &File) -> (r: String)
    ensures
        r@ == destination_dir_of(output@, creator_id@, file@.post_id) + "/"@ + file.name@,
{
    let mut r = destination_dir(output, creator_id, file);
    r.append("/");
    r.append(file.name.as_str());
    r
}

/// The URL of a file's data: its own server, or the listing's host over https,
/// then `/data` and the file's path.
pub open spec fn data_url_of(server: Option<Seq<char>>, host: Seq<char>, path: Seq<char>) -> Seq<char> {
    let base = match server {
        Some(s) => s,
        None => "https://"@ + host,
    };
    base + "/data"@ + path
}

/// The URL that `file`'s bytes are fetched from.
pub fn data_url(file: &File, host: &str) -> (r: String)
    ensures
        r@ == data_url_of(file@.server, host@, file.path@),
{
    let mut r = match &file.server {
        Some(s) => s.clone(),
        None => {
            let mut b = String::from_str("https://");
            b.append(host);
            b
        },
    };
    r.append("/data");
    r.append(file.path.as_str());
    r
}

/// The value of the range header that asks for the bytes from `from` on.
pub open spec fn range_value(from: nat) -> Seq<char> {
    "bytes="@ + decimal(from) + "-"@
}

/// Why a transfer ended without the file being complete.
#[derive(Clone, Copy, Debug, PartialEq, Eq, Structural)]
pub enum TransferError {
    /// The request could not be sent.
    Send,
    /// The server answered with a status that is neither a success nor 416.
    Status(u16),
    /// Reading the body failed; the bytes written so far stay for a later resume.
    Interrupted,
    /// The body is longer than a file length can count.
    Oversized,
}

/// How a transfer ended.
#[derive(Clone, Copy, Debug, PartialEq, Eq, Structural)]
pub enum Outcome {
    /// The body was written in full; `bytes` were written by this transfer.
    Written { bytes: u64 },
    /// The server had nothing left to send (416): the file was already complete.
    AlreadyComplete,
    /// The transfer failed.
    Failed(TransferError),
}

/// How the destination is opened before the body is written.
#[derive(Clone, Copy, Debug, PartialEq, Eq, Structural)]
pub enum WriteMode {
    /// Keep the bytes on disk and write after them.
    Append,
    /// Drop the bytes on disk and write from the start.
    Truncate,
}

/// What to do with a response.
#[derive(Clone, Copy, Debug, PartialEq, Eq, Structural)]
pub enum ResponseAction {
    /// Nothing to write; the file is complete.
    Skip,
    /// Nothing to write; the transfer failed.
    Fail,
    /// Open the destination in `mode` and write the body; `expected` is the
    /// length the file should reach, when known.
    Stream { mode: WriteMode, expected: Option<u64> },
}

/// Where a transfer stands.
#[derive(Clone, Copy, Debug, PartialEq, Eq, Structural)]
pub enum Phase {
    /// The request is out; no response yet.
    Awaiting,
    /// The body is being written.
    Streaming,
    /// The transfer has ended.
    Done(Outcome),
}

/// The state of one file's transfer.
#[derive(Clone, Copy, Debug, PartialEq, Eq, Structural)]
pub struct Transfer {
    /// Bytes that were on disk when the transfer began.
    pub downloaded: u64,
    /// Where the body's writing started.
    pub base: u64,
    /// Where the next byte of the body goes.
    pub pos: u64,
    pub phase: Phase,
}

/// A transfer of a file of which `existing` bytes are on disk.
pub open spec fn begin(existing: u64) -> Transfer {
    Transfer { downloaded: existing, base: existing, pos: existing, phase: Phase::Awaiting }
}

/// A status of the 2xx class.
pub open spec fn is_success(status: u16) -> bool {
    200 <= status <= 299
}

/// The transfer and the action after a response with `status` and an optional
/// content length. A 206 answer continues after the bytes on disk; any other
/// success carries the whole resource, which replaces them.
pub open spec fn on_response_spec(t: Transfer, status: u16, content_length: Option<u64>) -> (Transfer, ResponseAction) {
    if status == 416 {
        (Transfer { phase: Phase::Done(Outcome::AlreadyComplete), ..t }, ResponseAction::Skip)
    } else if !is_success(status) {
        (Transfer { phase: Phase::Done(Outcome::Failed(TransferError::Status(status))), ..t }, ResponseAction::Fail)
    } else {
        let base: u64 = if status == 206 { t.downloaded } else { 0 };
        let mode = if status == 206 { WriteMode::Append } else { WriteMode::Truncate };
        let expected = match content_length {
            Some(n) => if base + n <= u64::MAX { Some((base + n) as u64) } else { None },
            None => None,
        };
        (
            Transfer { base, pos: base, phase: Phase::Streaming, ..t },
            ResponseAction::Stream { mode, expected },
        )
    }
}

/// The transfer after a chunk of `len` bytes was received.
pub open spec fn on_chunk_spec(t: Transfer, len: nat) -> Transfer {
    if t.pos + len <= u64::MAX {
        Transfer { pos: (t.pos + len) as u64, ..t }
    } else {
        Transfer { phase: Phase::Done(Outcome::Failed(TransferError::Oversized)), ..t }
    }
}

/// The outcome when the body has ended.
pub open spec fn finished_outcome(t: Transfer) -> Outcome {
    Outcome::Written { bytes: if t.pos >= t.base { (t.pos - t.base) as u64 } else { 0 } }
}

impl Transfer {
    /// Starts the transfer of a file of which `existing` bytes are on disk.
    pub fn new(existing: u64) -> (r: Transfer)
        ensures
            r == begin(existing),
    {
        Transfer { downloaded: existing, base: existing, pos: existing, phase: Phase::Awaiting }
    }

    /// The range header to send: one that asks for the rest of the file when
    /// bytes are on disk, none otherwise.
    pub fn range_header(&self) -> (r: Option<String>)
        ensures
            r is Some <==> self.downloaded > 0,
            r matches Some(v) ==> v@ == range_value(self.downloaded as nat),
    {
        if self.downloaded > 0 {
            let mut v = String::from_str("bytes=");
            push_decimal(&mut v, self.downloaded);
            v.append("-");
            Some(v)
        } else {
            None
        }
    }

    /// The request could not be sent.
    pub fn on_send_failed(&mut self) -> (r: Outcome)
        requires
            old(self).phase == Phase::Awaiting,
        ensures
            r == Outcome::Failed(TransferError::Send),
            *final(self) == (Transfer { phase: Phase::Done(r), ..*old(self) }),
    {
        let r = Outcome::Failed(TransferError::Send);
        self.phase = Phase::Done(r);
        r
    }

    /// Decides what to do with a response.
    pub fn on_response(&mut self, status: u16, content_length: Option<u64>) -> (r: ResponseAction)
        requires
            old(self).phase == Phase::Awaiting,
        ensures
            (*final(self), r) == on_response_spec(*old(self), status, content_length),
    {
        if status == 416 {
            self.phase = Phase::Done(Outcome::AlreadyComplete);
            ResponseAction::Skip
        } else if status < 200 || status > 299 {
            self.phase = Phase::Done(Outcome::Failed(TransferError::Status(status)));
            ResponseAction::Fail
        } else {
            let base: u64 = if status == 206 { self.downloaded } else { 0 };
            let mode = if status == 206 { WriteMode::Append } else { WriteMode::Truncate };
            let expected = match content_length {
                Some(n) => if n <= u64::MAX - base { Some(base + n) } else { None },
                None => None,
            };
            self.base = base;
            self.pos = base;
            self.phase = Phase::Streaming;
            ResponseAction::Stream { mode, expected }
        }
    }

    /// A chunk of `len` bytes of the body arrived and is to be written; returns
    /// whether the transfer goes on.
    pub fn on_chunk(&mut self, len: u64) -> (r: bool)
        requires
            old(self).phase == Phase::Streaming,
        ensures
            *final(self) == on_chunk_spec(*old(self), len as nat),
            r == (final(self).phase == Phase::Streaming),
    {
        if len <= u64::MAX - self.pos {
            self.pos = self.pos + len;
            true
        } else {
            self.phase = Phase::Done(Outcome::Failed(TransferError::Oversized));
            false
        }
    }

    /// Reading the body failed; what was written stays.
    pub fn on_stream_failed(&mut self) -> (r: Outcome)
        requires
            old(self).phase == Phase::Streaming,
        ensures
            r == Outcome::Failed(TransferError::Interrupted),
            *final(self) == (Transfer { phase: Phase::Done(r), ..*old(self) }),
    {
        let r = Outcome::Failed(TransferError::Interrupted);
        self.phase = Phase::Done(r);
        r
    }

    /// The body has ended.
    pub fn on_stream_end(&mut self) -> (r: Outcome)
        requires
            old(self).phase == Phase::Streaming,
        ensures
            r == finished_outcome(*old(self)),
            *final(self) == (Transfer { phase: Phase::Done(r), ..*old(self) }),
    {
        let bytes = if self.pos >= self.base { self.pos - self.base } else { 0 };
        let r = Outcome::Written { bytes };
        self.phase = Phase::Done(r);
        r
    }
}


/// The chunks of a body, one after another.
pub open spec fn concat(chunks: Seq<Seq<u8>>) -> Seq<u8>
    decreases chunks.len(),
{
    if chunks.len() == 0 {
        Seq::empty()
    } else {
        concat(chunks.drop_last()) + chunks.last()
    }
}

/// The transfer after each of `chunks` was received in turn.
pub open spec fn after_chunks(t: Transfer, chunks: Seq<Seq<u8>>) -> Transfer
    decreases chunks.len(),
{
    if chunks.len() == 0 {
        t
    } else {
        let u = after_chunks(t, chunks.drop_last());
        if u.phase == Phase::Streaming {
            on_chunk_spec(u, chunks.last().len())
        } else {
            u
        }
    }
}

/// The bytes of the destination, which held `existing`, after a response that
/// was handled by `action` and whose body was `body`.
pub open spec fn file_after(existing: Seq<u8>, action: ResponseAction, body: Seq<u8>) -> Seq<u8> {
    match action {
        ResponseAction::Stream { mode: WriteMode::Append, .. } => existing + body,
        ResponseAction::Stream { mode: WriteMode::Truncate, .. } => body,
        _ => existing,
    }
}

proof fn lemma_after_chunks(t: Transfer, chunks: Seq<Seq<u8>>)
    requires
        t.phase == Phase::Streaming,
        t.pos + concat(chunks).len() <= u64::MAX,
    ensures
        after_chunks(t, chunks) == (Transfer { pos: (t.pos + concat(chunks).len()) as u64, ..t }),
    decreases chunks.len(),
{
    if chunks.len() > 0 {
        lemma_after_chunks(t, chunks.drop_last());
    }
}

/// Resuming a file whose first `l` bytes are on disk, with `0 < l < full.len()`,
/// asks for the bytes from `l` on, appends the `full.len() - l` bytes that a
/// partial answer carries, counts exactly those, and leaves the same bytes as a
/// fresh download of the whole resource.
pub proof fn lemma_resume(full: Seq<u8>, l: u64, chunks: Seq<Seq<u8>>)
    requires
        0 < l < full.len() <= u64::MAX,
        concat(chunks) == full.subrange(l as int, full.len() as int),
    ensures
        begin(l).downloaded == l,
        ({
            let (t, a) = on_response_spec(begin(l), 206, Some((full.len() - l) as u64));
            let fresh = on_response_spec(begin(0), 200, Some(full.len() as u64)).1;
            &&& a == ResponseAction::Stream { mode: WriteMode::Append, expected: Some(full.len() as u64) }
            &&& file_after(full.subrange(0, l as int), a, concat(chunks)) == full
            &&& file_after(full.subrange(0, l as int), a, concat(chunks)) == file_after(Seq::empty(), fresh, full)
            &&& after_chunks(t, chunks).phase == Phase::Streaming
            &&& finished_outcome(after_chunks(t, chunks)) == Outcome::Written { bytes: (full.len() - l) as u64 }
        }),
{
    let (t, a) = on_response_spec(begin(l), 206, Some((full.len() - l) as u64));
    lemma_after_chunks(t, chunks);
    assert(full.subrange(0, l as int) + full.subrange(l as int, full.len() as int) =~= full);
}

/// A file already complete on disk (`existing` non-empty) is asked for with a
/// range; a 416 answer then writes nothing and ends the transfer as complete.
pub proof fn lemma_complete_untouched(existing: Seq<u8>, content_length: Option<u64>, body: Seq<u8>)
    requires
        0 < existing.len() <= u64::MAX,
    ensures
        begin(existing.len() as u64).downloaded > 0,
        ({
            let (t, a) = on_response_spec(begin(existing.len() as u64), 416, content_length);
            &&& a == ResponseAction::Skip
            &&& t.phase == Phase::Done(Outcome::AlreadyComplete)
            &&& file_after(existing, a, body) == existing
        }),
{
}

/// A second run over files that are all complete on disk asks for each with a
/// range; when each is answered with 416, no file changes and none is written.
pub proof fn lemma_second_run(files: Seq<Seq<u8>>, bodies: Seq<Seq<u8>>)
    requires
        forall|i: int| 0 <= i < files.len() ==> 0 < (#[trigger] files[i]).len() <= u64::MAX,
    ensures
        forall|i: int|
            #![trigger files[i]]
            0 <= i < files.len() ==> {
                let (t, a) = on_response_spec(begin(files[i].len() as u64), 416, None);
                &&& begin(files[i].len() as u64).downloaded > 0
                &&& a == ResponseAction::Skip
                &&& t.phase == Phase::Done(Outcome::AlreadyComplete)
                &&& file_after(files[i], a, bodies[i]) == files[i]
            },
{
}

/// A complete file that is empty is asked for without a range; a full answer
/// with an empty body leaves it empty and counts no byte written.
pub proof fn lemma_empty_file_rerun(content_length: Option<u64>)
    ensures
        begin(0).downloaded == 0,
        ({
            let (t, a) = on_response_spec(begin(0), 200, content_length);
            &&& a matches ResponseAction::Stream { mode: WriteMode::Truncate, .. }
            &&& file_after(Seq::empty(), a, concat(Seq::empty())) == Seq::<u8>::empty()
            &&& finished_outcome(after_chunks(t, Seq::empty())) == Outcome::Written { bytes: 0 }
        }),
{
    assert(concat(Seq::<Seq<u8>>::empty()) =~= Seq::<u8>::empty());
}

} // verus!
