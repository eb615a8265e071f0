//! The copy-transform driver: a state machine that runs one transfer from a
//! byte source through the gzip encoder to a byte sink.
//!
//! The driver owns the encoder and every decision — what to open, read,
//! write and close next, in which order, and which error a failure maps to.
//! The caller owns the file handles and the clock: it performs each
//! [`Action`] the driver asks for and answers with the matching [`Event`].
//! The driver's ghost logs `read` and `written` record the raw bytes taken
//! from the source and the bytes handed to the sink; on a completed
//! transfer the written stream is exactly `gzip_of` the bytes read.

use crate::codec::{gzip_of, Encoder};
use vstd::prelude::*;

verus! {

/// How an open or create of a file failed, as the caller classified it.
#[derive(Clone, Copy, Debug, PartialEq, Eq, Structural)]
pub enum FileErrorKind {
    NotFound,
    PermissionDenied,
    Other,
}

/// Why a transfer failed.
#[derive(Clone, Copy, Debug, PartialEq, Eq, Structural)]
pub enum PipelineError {
    /// The source could not be found, or the target's place does not exist.
    FileNotFound,
    /// The source or the target may not be touched by this process.
    PermissionDenied,
    /// A read, write, close or metadata query failed mid-transfer.
    IoError,
    /// The codec failed internally; the stream written so far is not
    /// trustworthy.
    CodecError,
}

/// The immutable record of a successful transfer.
#[derive(Clone, Copy, Debug, PartialEq, Eq, Structural)]
pub struct TransferStatistics {
    /// The source's length in bytes, as its metadata reported it on close.
    pub source_len: u64,
    /// The target's length in bytes, as the filesystem reported it after
    /// the sink was flushed and closed.
    pub target_len: u64,
    /// Wall-clock time from the start of the pipeline to the sink's close,
    /// in nanoseconds.
    pub elapsed_nanos: u64,
}

/// What the caller must do next.
pub enum Action {
    /// Open the source file for reading.
    OpenSource,
    /// Create or truncate the target file for writing.
    CreateSink,
    /// Read at most this many bytes from the source; an empty result means
    /// end of stream.
    ReadChunk(usize),
    /// Write all of these bytes to the sink.
    WriteChunk(Vec<u8>),
    /// Flush and close the sink; report the target's on-disk length.
    CloseSink,
    /// Close the source; report its length from metadata.
    CloseSource,
    /// The transfer is over; this is its outcome.
    Stop(Result<TransferStatistics, PipelineError>),
}

/// What the caller reports back after performing an action.
pub enum Event {
    /// Begin the transfer.
    Start,
    /// The source is open.
    OpenOk,
    /// The source could not be opened; no handle was taken.
    OpenFailed(FileErrorKind),
    /// The sink is created.
    CreateOk,
    /// The sink could not be created; no handle was taken.
    CreateFailed(FileErrorKind),
    /// Bytes read from the source; empty at end of stream and only there.
    ReadOk(Vec<u8>),
    /// A read failed.
    ReadFailed,
    /// The whole chunk was written.
    WriteOk,
    /// A write failed.
    WriteFailed,
    /// The sink is flushed and closed: its on-disk length, and the
    /// wall-clock nanoseconds since the start.
    SinkClosed(u64, u64),
    /// The sink's flush or close failed; the handle is released anyway.
    SinkCloseFailed,
    /// The source is closed: its length from metadata.
    SourceClosed(u64),
    /// The source's metadata query failed; the handle is released anyway.
    SourceCloseFailed,
}

/// Where the transfer stands.
#[derive(Clone, Copy, Debug, PartialEq, Eq, Structural)]
pub enum Phase {
    /// Nothing has happened yet.
    Idle,
    /// The caller is opening the source.
    AwaitOpen,
    /// The caller is creating the sink.
    AwaitCreate,
    /// The caller is reading the next chunk.
    AwaitRead,
    /// The caller is writing a chunk of the running stream.
    AwaitWrite,
    /// The caller is writing the stream's final bytes.
    AwaitFinalWrite,
    /// The caller is closing the sink after a full stream.
    AwaitSinkClose,
    /// The caller is closing the source after a full stream.
    AwaitSourceClose,
    /// The transfer failed; the caller is closing the sink.
    AwaitAbortSinkClose,
    /// The transfer failed; the caller is closing the source.
    AwaitAbortSourceClose,
    /// The transfer succeeded.
    Completed,
    /// The transfer failed.
    Failed,
}

/// The error a failed open or create maps to.
pub open spec fn file_error(k: FileErrorKind) -> PipelineError {
    match k {
        FileErrorKind::NotFound => PipelineError::FileNotFound,
        FileErrorKind::PermissionDenied => PipelineError::PermissionDenied,
        FileErrorKind::Other => PipelineError::IoError,
    }
}

fn map_file_error(k: FileErrorKind) -> (e: PipelineError)
    ensures
        e == file_error(k),
{
    match k {
        FileErrorKind::NotFound => PipelineError::FileNotFound,
        FileErrorKind::PermissionDenied => PipelineError::PermissionDenied,
        FileErrorKind::Other => PipelineError::IoError,
    }
}

/// One transfer's state: the driver of the copy-transform loop.
pub struct Driver {
    /// Where the transfer stands.
    pub phase: Phase,
    /// How many bytes one read may return at most.
    pub chunk_size: usize,
    /// Whether the source handle is held, by the driver's account of the
    /// caller's reports.
    pub source_open: bool,
    /// Whether the sink handle is held, by the same account.
    pub sink_open: bool,
    /// The target length reported when the sink closed.
    pub target_len: u64,
    /// The elapsed time reported when the sink closed.
    pub elapsed_nanos: u64,
    /// The error a failed transfer will stop with; meaningful only on the
    /// abort path.
    pub fail: PipelineError,
    /// The encoder, until the stream is finished or abandoned.
    pub enc: Option<Encoder>,
    /// Every raw byte taken from the source so far.
    pub read: Ghost<Seq<u8>>,
    /// Every byte handed to the sink so far.
    pub written: Ghost<Seq<u8>>,
}

impl Driver {
    /// The driver's invariant: handles are held exactly where the protocol
    /// has them open, the encoder has consumed exactly the bytes read and
    /// emitted exactly the bytes written, and once the stream is finished
    /// the bytes written are the gzip stream of the bytes read.
    pub open spec fn inv(&self) -> bool {
        &&& match self.phase {
            Phase::Idle => !self.source_open && !self.sink_open && self.read@
                == Seq::<u8>::empty() && self.written@ == Seq::<u8>::empty(),
            Phase::AwaitOpen => !self.source_open && !self.sink_open,
            Phase::AwaitCreate => self.source_open && !self.sink_open,
            Phase::AwaitRead => self.source_open && self.sink_open,
            Phase::AwaitWrite => self.source_open && self.sink_open,
            Phase::AwaitFinalWrite => self.source_open && self.sink_open && self.written@
                == gzip_of(self.read@),
            Phase::AwaitSinkClose => self.source_open && self.sink_open && self.written@
                == gzip_of(self.read@),
            Phase::AwaitSourceClose => self.source_open && !self.sink_open && self.written@
                == gzip_of(self.read@),
            Phase::AwaitAbortSinkClose => self.source_open && self.sink_open,
            Phase::AwaitAbortSourceClose => self.source_open && !self.sink_open,
            Phase::Completed => !self.source_open && !self.sink_open && self.written@
                == gzip_of(self.read@),
            Phase::Failed => !self.source_open && !self.sink_open,
        }
        &&& (match self.phase {
            Phase::Idle | Phase::AwaitOpen | Phase::AwaitCreate | Phase::AwaitRead
                | Phase::AwaitWrite => (self.enc matches Some(e) && e.fed() == self.read@
                && e.emitted() == self.written@),
            _ => true,
        })
        &&& self.chunk_size >= 1
    }

    /// Which events answer the pending action in this phase.
    pub open spec fn expects(&self, ev: Event) -> bool {
        match self.phase {
            Phase::Idle => ev is Start,
            Phase::AwaitOpen => ev is OpenOk || ev is OpenFailed,
            Phase::AwaitCreate => ev is CreateOk || ev is CreateFailed,
            Phase::AwaitRead => ev is ReadOk || ev is ReadFailed,
            Phase::AwaitWrite => ev is WriteOk || ev is WriteFailed,
            Phase::AwaitFinalWrite => ev is WriteOk || ev is WriteFailed,
            Phase::AwaitSinkClose => ev is SinkClosed || ev is SinkCloseFailed,
            Phase::AwaitAbortSinkClose => ev is SinkClosed || ev is SinkCloseFailed,
            Phase::AwaitSourceClose => ev is SourceClosed || ev is SourceCloseFailed,
            Phase::AwaitAbortSourceClose => ev is SourceClosed || ev is SourceCloseFailed,
            Phase::Completed => false,
            Phase::Failed => false,
        }
    }
}

/// Fields no transition changes.
pub open spec fn same_config(pre: Driver, post: Driver) -> bool {
    &&& post.chunk_size == pre.chunk_size
    &&& post.target_len == pre.target_len
    &&& post.elapsed_nanos == pre.elapsed_nanos
}

/// The whole transition relation: what one step does to the driver and
/// which action it asks for, for every phase and event the phase expects.
pub open spec fn steps_to(pre: Driver, ev: Event, post: Driver, a: Action) -> bool {
    match (pre.phase, ev) {
        (Phase::Idle, Event::Start) => {
            &&& a is OpenSource
            &&& post == (Driver { phase: Phase::AwaitOpen, ..pre })
        },
        (Phase::AwaitOpen, Event::OpenOk) => {
            &&& a is CreateSink
            &&& post == (Driver { phase: Phase::AwaitCreate, source_open: true, ..pre })
        },
        (Phase::AwaitOpen, Event::OpenFailed(k)) => {
            &&& a == Action::Stop(Err(file_error(k)))
            &&& post == (Driver { phase: Phase::Failed, fail: file_error(k), ..pre })
        },
        (Phase::AwaitCreate, Event::CreateOk) => {
            &&& a == Action::ReadChunk(pre.chunk_size)
            &&& post == (Driver { phase: Phase::AwaitRead, sink_open: true, ..pre })
        },
        (Phase::AwaitCreate, Event::CreateFailed(k)) => {
            &&& a is CloseSource
            &&& post == (Driver {
                phase: Phase::AwaitAbortSourceClose,
                fail: file_error(k),
                ..pre
            })
        },
        (Phase::AwaitRead, Event::ReadOk(chunk)) => {
            if chunk@.len() == 0 {
                ||| {
                    &&& a matches Action::WriteChunk(tail)
                    &&& pre.written@ + tail@ == gzip_of(pre.read@)
                    &&& post.phase is AwaitFinalWrite
                    &&& post.read == pre.read
                    &&& post.written@ == pre.written@ + tail@
                    &&& post.enc is None
                    &&& post.source_open == pre.source_open
                    &&& post.sink_open == pre.sink_open
                    &&& post.fail == pre.fail
                    &&& same_config(pre, post)
                }
                ||| {
                    &&& a is CloseSink
                    &&& post.phase is AwaitAbortSinkClose
                    &&& post.fail == PipelineError::CodecError
                    &&& post.read == pre.read
                    &&& post.written == pre.written
                    &&& post.enc is None
                    &&& post.source_open == pre.source_open
                    &&& post.sink_open == pre.sink_open
                    &&& same_config(pre, post)
                }
            } else {
                ||| {
                    &&& a matches Action::WriteChunk(out)
                    &&& post.phase is AwaitWrite
                    &&& post.read@ == pre.read@ + chunk@
                    &&& post.written@ == pre.written@ + out@
                    &&& (post.enc matches Some(e) && e.fed() == post.read@ && e.emitted()
                        == post.written@)
                    &&& post.source_open == pre.source_open
                    &&& post.sink_open == pre.sink_open
                    &&& post.fail == pre.fail
                    &&& same_config(pre, post)
                }
                ||| {
                    &&& a is CloseSink
                    &&& post.phase is AwaitAbortSinkClose
                    &&& post.fail == PipelineError::CodecError
                    &&& post.read@ == pre.read@ + chunk@
                    &&& post.written == pre.written
                    &&& post.enc is None
                    &&& post.source_open == pre.source_open
                    &&& post.sink_open == pre.sink_open
                    &&& same_config(pre, post)
                }
            }
        },
        (Phase::AwaitRead, Event::ReadFailed) => {
            &&& a is CloseSink
            &&& post == (Driver {
                phase: Phase::AwaitAbortSinkClose,
                fail: PipelineError::IoError,
                ..pre
            })
        },
        (Phase::AwaitWrite, Event::WriteOk) => {
            &&& a == Action::ReadChunk(pre.chunk_size)
            &&& post == (Driver { phase: Phase::AwaitRead, ..pre })
        },
        (Phase::AwaitWrite, Event::WriteFailed) => {
            &&& a is CloseSink
            &&& post == (Driver {
                phase: Phase::AwaitAbortSinkClose,
                fail: PipelineError::IoError,
                ..pre
            })
        },
        (Phase::AwaitFinalWrite, Event::WriteOk) => {
            &&& a is CloseSink
            &&& post == (Driver { phase: Phase::AwaitSinkClose, ..pre })
        },
        (Phase::AwaitFinalWrite, Event::WriteFailed) => {
            &&& a is CloseSink
            &&& post == (Driver {
                phase: Phase::AwaitAbortSinkClose,
                fail: PipelineError::IoError,
                ..pre
            })
        },
        (Phase::AwaitSinkClose, Event::SinkClosed(target_len, elapsed_nanos)) => {
            &&& a is CloseSource
            &&& post == (Driver {
                phase: Phase::AwaitSourceClose,
                sink_open: false,
                target_len,
                elapsed_nanos,
                ..pre
            })
        },
        (Phase::AwaitSinkClose, Event::SinkCloseFailed) => {
            &&& a is CloseSource
            &&& post == (Driver {
                phase: Phase::AwaitAbortSourceClose,
                sink_open: false,
                fail: PipelineError::IoError,
                ..pre
            })
        },
        (Phase::AwaitAbortSinkClose, Event::SinkClosed(_, _))
            | (Phase::AwaitAbortSinkClose, Event::SinkCloseFailed) => {
            &&& a is CloseSource
            &&& post == (Driver { phase: Phase::AwaitAbortSourceClose, sink_open: false, ..pre })
        },
        (Phase::AwaitSourceClose, Event::SourceClosed(source_len)) => {
            &&& a == Action::Stop(
                Ok(
                    TransferStatistics {
                        source_len,
                        target_len: pre.target_len,
                        elapsed_nanos: pre.elapsed_nanos,
                    },
                ),
            )
            &&& post == (Driver { phase: Phase::Completed, source_open: false, ..pre })
        },
        (Phase::AwaitSourceClose, Event::SourceCloseFailed) => {
            &&& a == Action::Stop(Err(PipelineError::IoError))
            &&& post == (Driver {
                phase: Phase::Failed,
                source_open: false,
                fail: PipelineError::IoError,
                ..pre
            })
        },
        (Phase::AwaitAbortSourceClose, Event::SourceClosed(_))
            | (Phase::AwaitAbortSourceClose, Event::SourceCloseFailed) => {
            &&& a == Action::Stop(Err(pre.fail))
            &&& post == (Driver { phase: Phase::Failed, source_open: false, ..pre })
        },
        _ => false,
    }
}

impl Driver {
    /// A fresh driver for one transfer, reading at most `chunk_size` bytes
    /// at a time. A chunk size of zero could not tell end of stream from an
    /// empty read, so it is ruled out.
    pub fn new(chunk_size: usize) -> (d: Driver)
        requires
            chunk_size >= 1,
        ensures
            d.inv(),
            d.phase is Idle,
            d.chunk_size == chunk_size,
            !d.source_open,
            !d.sink_open,
            d.read@ == Seq::<u8>::empty(),
            d.written@ == Seq::<u8>::empty(),
    {
        Driver {
            phase: Phase::Idle,
            chunk_size,
            source_open: false,
            sink_open: false,
            target_len: 0,
            elapsed_nanos: 0,
            fail: PipelineError::IoError,
            enc: Some(Encoder::new()),
            read: Ghost(Seq::empty()),
            written: Ghost(Seq::empty()),
        }
    }

    /// Take one step: consume the caller's report on the previous action and
    /// decide the next one. A `Stop` action is the transfer's outcome: by
    /// then both handles are released, and on success the bytes handed to
    /// the sink are exactly the gzip stream of the bytes read.
    pub fn step(&mut self, ev: Event) -> (a: Action)
        requires
            old(self).inv(),
            old(self).expects(ev),
        ensures
            final(self).inv(),
            steps_to(*old(self), ev, *final(self), a),
            a is Stop ==> !final(self).source_open && !final(self).sink_open,
            (a matches Action::Stop(outcome) && outcome is Ok) ==> final(self).written@
                == gzip_of(final(self).read@),
    {
        match (self.phase, ev) {
            (Phase::Idle, Event::Start) => {
                self.phase = Phase::AwaitOpen;
                Action::OpenSource
            },
            (Phase::AwaitOpen, Event::OpenOk) => {
                self.phase = Phase::AwaitCreate;
                self.source_open = true;
                Action::CreateSink
            },
            (Phase::AwaitOpen, Event::OpenFailed(k)) => {
                let e = map_file_error(k);
                self.phase = Phase::Failed;
                self.fail = e;
                Action::Stop(Err(e))
            },
            (Phase::AwaitCreate, Event::CreateOk) => {
                self.phase = Phase::AwaitRead;
                self.sink_open = true;
                Action::ReadChunk(self.chunk_size)
            },
            (Phase::AwaitCreate, Event::CreateFailed(k)) => {
                self.phase = Phase::AwaitAbortSourceClose;
                self.fail = map_file_error(k);
                Action::CloseSource
            },
            (Phase::AwaitRead, Event::ReadOk(chunk)) => {
                let enc = match self.enc.take() {
                    Some(e) => e,
                    None => unreached(),
                };
                if chunk.len() == 0 {
                    match enc.finish() {
                        Ok(tail) => {
                            self.phase = Phase::AwaitFinalWrite;
                            self.written = Ghost(self.written@ + tail@);
                            Action::WriteChunk(tail)
                        },
                        Err(_) => {
                            self.phase = Phase::AwaitAbortSinkClose;
                            self.fail = PipelineError::CodecError;
                            Action::CloseSink
                        },
                    }
                } else {
                    let mut enc = enc;
                    match enc.feed(chunk.as_slice()) {
                        Ok(out) => {
                            self.phase = Phase::AwaitWrite;
                            self.read = Ghost(self.read@ + chunk@);
                            self.written = Ghost(self.written@ + out@);
                            self.enc = Some(enc);
                            Action::WriteChunk(out)
                        },
                        Err(_) => {
                            self.phase = Phase::AwaitAbortSinkClose;
                            self.fail = PipelineError::CodecError;
                            self.read = Ghost(self.read@ + chunk@);
                            Action::CloseSink
                        },
                    }
                }
            },
            (Phase::AwaitRead, Event::ReadFailed) => {
                self.phase = Phase::AwaitAbortSinkClose;
                self.fail = PipelineError::IoError;
                Action::CloseSink
            },
            (Phase::AwaitWrite, Event::WriteOk) => {
                self.phase = Phase::AwaitRead;
                Action::ReadChunk(self.chunk_size)
            },
            (Phase::AwaitWrite, Event::WriteFailed) => {
                self.phase = Phase::AwaitAbortSinkClose;
                self.fail = PipelineError::IoError;
                Action::CloseSink
            },
            (Phase::AwaitFinalWrite, Event::WriteOk) => {
                self.phase = Phase::AwaitSinkClose;
                Action::CloseSink
            },
            (Phase::AwaitFinalWrite, Event::WriteFailed) => {
                self.phase = Phase::AwaitAbortSinkClose;
                self.fail = PipelineError::IoError;
                Action::CloseSink
            },
            (Phase::AwaitSinkClose, Event::SinkClosed(target_len, elapsed_nanos)) => {
                self.phase = Phase::AwaitSourceClose;
                self.sink_open = false;
                self.target_len = target_len;
                self.elapsed_nanos = elapsed_nanos;
                Action::CloseSource
            },
            (Phase::AwaitSinkClose, Event::SinkCloseFailed) => {
                self.phase = Phase::AwaitAbortSourceClose;
                self.sink_open = false;
                self.fail = PipelineError::IoError;
                Action::CloseSource
            },
            (Phase::AwaitAbortSinkClose, Event::SinkClosed(_, _)) => {
                self.phase = Phase::AwaitAbortSourceClose;
                self.sink_open = false;
                Action::CloseSource
            },
            (Phase::AwaitAbortSinkClose, Event::SinkCloseFailed) => {
                self.phase = Phase::AwaitAbortSourceClose;
                self.sink_open = false;
                Action::CloseSource
            },
            (Phase::AwaitSourceClose, Event::SourceClosed(source_len)) => {
                self.phase = Phase::Completed;
                self.source_open = false;
                Action::Stop(
                    Ok(
                        TransferStatistics {
                            source_len,
                            target_len: self.target_len,
                            elapsed_nanos: self.elapsed_nanos,
                        },
                    ),
                )
            },
            (Phase::AwaitSourceClose, Event::SourceCloseFailed) => {
                self.phase = Phase::Failed;
                self.source_open = false;
                self.fail = PipelineError::IoError;
                Action::Stop(Err(PipelineError::IoError))
            },
            (Phase::AwaitAbortSourceClose, Event::SourceClosed(_)) => {
                self.phase = Phase::Failed;
                self.source_open = false;
                Action::Stop(Err(self.fail))
            },
            (Phase::AwaitAbortSourceClose, Event::SourceCloseFailed) => {
                self.phase = Phase::Failed;
                self.source_open = false;
                Action::Stop(Err(self.fail))
            },
            _ => unreached(),
        }
    }
}

/// Deterministic-target law: two completed transfers that read identical
/// source bytes have written byte-identical target streams, whatever their
/// timing; repeating a transfer on an unchanged source rewrites the same
/// target.
pub proof fn lemma_repeat_writes_same_target(d1: Driver, d2: Driver)
    requires
        d1.inv(),
        d2.inv(),
        d1.phase is Completed,
        d2.phase is Completed,
        d1.read@ == d2.read@,
    ensures
        d1.written@ == d2.written@,
{
}

/// Resource-release law: in a terminal state, success or failure alike, the
/// driver's account holds no open handle.
pub proof fn lemma_terminal_releases_handles(d: Driver)
    requires
        d.inv(),
        d.phase is Completed || d.phase is Failed,
    ensures
        !d.source_open,
        !d.sink_open,
{
}

/// Empty-source law: a completed transfer that read no byte wrote exactly
/// the codec's empty stream — the minimal header and footer, nothing more.
pub proof fn lemma_empty_source_minimal_target(d: Driver)
    requires
        d.inv(),
        d.phase is Completed,
        d.read@ == Seq::<u8>::empty(),
    ensures
        d.written@ == gzip_of(Seq::<u8>::empty()),
{
}

} // verus!
