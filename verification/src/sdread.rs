//! The decisions of reading the settings file from the SD card, and the
//! choice between that file and the built-in settings.
//!
//! The caller performs the SD and FAT operations and the waits; after each
//! one it hands the outcome to [`ConfigRead::step`], which says what to do
//! next. The card gets at most [`INIT_RETRIES`] initialisation tries with a
//! [`RETRY_WAIT_MS`] wait after each failed one; any error while opening the
//! volume, the root directory or the file, or while reading, ends the read
//! without a result; a file longer than the buffer is rejected whole rather
//! than read in part, so that a truncated file never passes for a good one.

use vstd::prelude::*;

use crate::settings::{default_model, settings_of, settings_of_bytes, Settings};

verus! {

/// Initialisation tries before the card is given up.
pub const INIT_RETRIES: u32 = 3;

/// Wait after a failed initialisation, in milliseconds.
pub const RETRY_WAIT_MS: u32 = 50;

/// The outcome of the operation that the last action asked for.
#[derive(Clone, Copy, Debug, PartialEq, Eq, Structural)]
pub enum ReadEvent {
    /// The card answered the initialisation.
    InitOk,
    /// The card did not answer the initialisation.
    InitFailed,
    /// The wait is over.
    Waited,
    /// Volume, root directory and file are open; the file has this length.
    Opened { file_len: u32 },
    /// Opening the volume, the root directory or the file failed.
    OpenFailed,
    /// The file was read: `n` bytes.
    ReadOk { n: usize },
    /// Reading the file failed.
    ReadFailed,
}

/// What to do next.
#[derive(Clone, Copy, Debug, PartialEq, Eq, Structural)]
pub enum ReadAction {
    /// Initialise the card.
    Init,
    /// Wait this many milliseconds.
    Wait { ms: u32 },
    /// Open the volume, its root directory and the settings file.
    Open,
    /// Read the whole file into the buffer.
    Read,
    /// Stop: the number of bytes read, or `None` if there is no usable file.
    Finish(Option<usize>),
}

/// The state of one read of the settings file.
#[derive(Clone, Copy, Debug, PartialEq, Eq, Structural)]
pub struct ConfigRead {
    /// Initialisation tries that failed so far (at most `INIT_RETRIES`).
    pub failed_inits: u32,
    /// Whether a wait has been asked for and not yet reported.
    pub waiting: bool,
    /// Length of the buffer the file is read into.
    pub buf_len: usize,
}

/// The state and the action after `e`.
pub open spec fn spec_read_step(r: ConfigRead, e: ReadEvent) -> (ConfigRead, ReadAction) {
    match e {
        ReadEvent::InitOk => (r, ReadAction::Open),
        ReadEvent::InitFailed => (
            ConfigRead {
                failed_inits: if r.failed_inits < INIT_RETRIES {
                    (r.failed_inits + 1) as u32
                } else {
                    r.failed_inits
                },
                waiting: true,
                ..r
            },
            ReadAction::Wait { ms: RETRY_WAIT_MS },
        ),
        ReadEvent::Waited => (
            ConfigRead { waiting: false, ..r },
            if r.failed_inits < INIT_RETRIES {
                ReadAction::Init
            } else {
                ReadAction::Finish(None)
            },
        ),
        ReadEvent::Opened { file_len } => (
            r,
            if file_len as int > r.buf_len as int {
                ReadAction::Finish(None)
            } else {
                ReadAction::Read
            },
        ),
        ReadEvent::OpenFailed => (r, ReadAction::Finish(None)),
        ReadEvent::ReadOk { n } => (r, ReadAction::Finish(Some(n))),
        ReadEvent::ReadFailed => (r, ReadAction::Finish(None)),
    }
}

impl ConfigRead {
    /// A read into a buffer of `buf_len` bytes, before the first try.
    pub fn new(buf_len: usize) -> (r: Self)
        ensures
            r.failed_inits == 0,
            !r.waiting,
            r.buf_len == buf_len,
    {
        ConfigRead { failed_inits: 0, waiting: false, buf_len }
    }

    /// The first action: initialise the card.
    pub fn start(&self) -> (a: ReadAction)
        ensures
            a == ReadAction::Init,
    {
        ReadAction::Init
    }

    /// The action after the outcome `e` of the previous one.
    pub fn step(&mut self, e: ReadEvent) -> (a: ReadAction)
        ensures
            (*final(self), a) == spec_read_step(*old(self), e),
            final(self).buf_len == old(self).buf_len,
            e == ReadEvent::InitOk ==> a == ReadAction::Open,
            e == ReadEvent::InitOk ==> *final(self) == *old(self),
            e == ReadEvent::InitFailed ==> a == (ReadAction::Wait { ms: RETRY_WAIT_MS }),
            e == ReadEvent::InitFailed ==> final(self).waiting,
            e == ReadEvent::InitFailed && old(self).failed_inits < INIT_RETRIES
                ==> final(self).failed_inits == old(self).failed_inits + 1,
            e == ReadEvent::Waited ==> !final(self).waiting,
            e == ReadEvent::Waited ==> final(self).failed_inits == old(self).failed_inits,
            e == ReadEvent::Waited && old(self).failed_inits < INIT_RETRIES
                ==> a == ReadAction::Init,
            e == ReadEvent::Waited && old(self).failed_inits >= INIT_RETRIES
                ==> a == ReadAction::Finish(None),
            (e is Opened) ==> *final(self) == *old(self),
            (e is Opened) && e->file_len as int <= old(self).buf_len as int
                ==> a == ReadAction::Read,
            (e is Opened) && e->file_len as int > old(self).buf_len as int
                ==> a == ReadAction::Finish(None),
            e == ReadEvent::OpenFailed ==> a == ReadAction::Finish(None),
            e == ReadEvent::ReadFailed ==> a == ReadAction::Finish(None),
            (e is ReadOk) ==> a == ReadAction::Finish(Some(e->n)),
    {
        match e {
            ReadEvent::InitOk => ReadAction::Open,
            ReadEvent::InitFailed => {
                if self.failed_inits < INIT_RETRIES {
                    self.failed_inits = self.failed_inits + 1;
                }
                self.waiting = true;
                ReadAction::Wait { ms: RETRY_WAIT_MS }
            },
            ReadEvent::Waited => {
                self.waiting = false;
                if self.failed_inits < INIT_RETRIES {
                    ReadAction::Init
                } else {
                    ReadAction::Finish(None)
                }
            },
            ReadEvent::Opened { file_len } => {
                if file_len as u64 > self.buf_len as u64 {
                    ReadAction::Finish(None)
                } else {
                    ReadAction::Read
                }
            },
            ReadEvent::OpenFailed => ReadAction::Finish(None),
            ReadEvent::ReadOk { n } => ReadAction::Finish(Some(n)),
            ReadEvent::ReadFailed => ReadAction::Finish(None),
        }
    }
}

/// Whether `e` is an outcome of the operation that `a` asks for.
pub open spec fn answers(a: ReadAction, e: ReadEvent) -> bool {
    match a {
        ReadAction::Init => e == ReadEvent::InitOk || e == ReadEvent::InitFailed,
        ReadAction::Wait { .. } => e == ReadEvent::Waited,
        ReadAction::Open => e is Opened || e == ReadEvent::OpenFailed,
        ReadAction::Read => e is ReadOk || e == ReadEvent::ReadFailed,
        ReadAction::Finish(_) => false,
    }
}

/// Whether the events `es` answer, one after the other, the actions that the
/// reader asks for from state `r` with pending action `a`.
pub open spec fn valid_run(r: ConfigRead, a: ReadAction, es: Seq<ReadEvent>) -> bool
    decreases es.len(),
{
    es.len() == 0 || (answers(a, es[0]) && valid_run(
        spec_read_step(r, es[0]).0,
        spec_read_step(r, es[0]).1,
        es.drop_first(),
    ))
}

/// The number of events in `es` that answer an initialisation.
pub open spec fn init_tries(es: Seq<ReadEvent>) -> nat
    decreases es.len(),
{
    if es.len() == 0 {
        0
    } else {
        (if es[0] == ReadEvent::InitOk || es[0] == ReadEvent::InitFailed {
            1nat
        } else {
            0nat
        }) + init_tries(es.drop_first())
    }
}

/// The number of waits in `es`.
pub open spec fn waits(es: Seq<ReadEvent>) -> nat
    decreases es.len(),
{
    if es.len() == 0 {
        0
    } else {
        (if es[0] == ReadEvent::Waited {
            1nat
        } else {
            0nat
        }) + waits(es.drop_first())
    }
}

/// What holds of every state and pending action that a run reaches.
pub open spec fn run_inv(r: ConfigRead, a: ReadAction) -> bool {
    &&& r.failed_inits <= INIT_RETRIES
    &&& (a == ReadAction::Init ==> r.failed_inits < INIT_RETRIES)
    &&& (a is Wait ==> 1 <= r.failed_inits)
}

/// The most events that can still come from a state and pending action.
pub open spec fn events_left(r: ConfigRead, a: ReadAction) -> int {
    match a {
        ReadAction::Init => 7 - 2 * r.failed_inits,
        ReadAction::Wait { .. } => 1 + if r.failed_inits < INIT_RETRIES {
            7 - 2 * r.failed_inits
        } else {
            0
        },
        ReadAction::Open => 2,
        ReadAction::Read => 1,
        ReadAction::Finish(_) => 0,
    }
}

/// The most initialisation tries that can still come.
pub open spec fn tries_left(r: ConfigRead, a: ReadAction) -> int {
    match a {
        ReadAction::Init => 3 - r.failed_inits,
        ReadAction::Wait { .. } => if r.failed_inits < INIT_RETRIES {
            3 - r.failed_inits
        } else {
            0
        },
        _ => 0,
    }
}

/// The most waits that can still come.
pub open spec fn waits_left(r: ConfigRead, a: ReadAction) -> int {
    match a {
        ReadAction::Init => 3 - r.failed_inits,
        ReadAction::Wait { .. } => 1 + if r.failed_inits < INIT_RETRIES {
            3 - r.failed_inits
        } else {
            0
        },
        _ => 0,
    }
}

/// From any reachable state, a run is bounded in length, in tries and in
/// waits.
pub proof fn lemma_run_bounded(r: ConfigRead, a: ReadAction, es: Seq<ReadEvent>)
    requires
        run_inv(r, a),
        valid_run(r, a, es),
    ensures
        es.len() <= events_left(r, a),
        init_tries(es) <= tries_left(r, a),
        waits(es) <= waits_left(r, a),
    decreases es.len(),
{
    if es.len() > 0 {
        let (r2, a2) = spec_read_step(r, es[0]);
        assert(run_inv(r2, a2));
        lemma_run_bounded(r2, a2, es.drop_first());
    }
}

/// The reader never waits forever: from the start, any run has at most seven
/// events, at most `INIT_RETRIES` initialisation tries and at most
/// `INIT_RETRIES` waits; every wait is `RETRY_WAIT_MS` long.
pub proof fn lemma_read_terminates(buf_len: usize, es: Seq<ReadEvent>)
    requires
        valid_run(
            ConfigRead { failed_inits: 0, waiting: false, buf_len },
            ReadAction::Init,
            es,
        ),
    ensures
        es.len() <= 7,
        init_tries(es) <= INIT_RETRIES,
        waits(es) <= INIT_RETRIES,
{
    lemma_run_bounded(ConfigRead { failed_inits: 0, waiting: false, buf_len }, ReadAction::Init, es);
}

/// What each outcome leads to, for every state: a card that answers is
/// always followed by opening the file, whatever tries failed before; a
/// failed try by a wait of `RETRY_WAIT_MS`; an open or read error ends the
/// read without a result; a read ends it with the number of bytes read.
pub proof fn lemma_outcomes(r: ConfigRead, n: usize)
    ensures
        spec_read_step(r, ReadEvent::InitOk).1 == ReadAction::Open,
        spec_read_step(r, ReadEvent::InitFailed).1 == (ReadAction::Wait { ms: RETRY_WAIT_MS }),
        spec_read_step(r, ReadEvent::OpenFailed).1 == ReadAction::Finish(None),
        spec_read_step(r, ReadEvent::ReadFailed).1 == ReadAction::Finish(None),
        spec_read_step(r, (ReadEvent::ReadOk { n })).1 == ReadAction::Finish(Some(n)),
{
}

/// The card is tried again after a failure as long as fewer than
/// `INIT_RETRIES` tries have failed, and only then: the tries that failed are
/// counted one by one.
pub proof fn lemma_retry_count(r: ConfigRead)
    requires
        r.failed_inits < INIT_RETRIES,
    ensures
        spec_read_step(r, ReadEvent::InitFailed).0.failed_inits == r.failed_inits + 1,
        spec_read_step(r, ReadEvent::Waited).1 == ReadAction::Init,
        r.failed_inits + 1 < 3 ==> spec_read_step(
            spec_read_step(r, ReadEvent::InitFailed).0,
            ReadEvent::Waited,
        ).1 == ReadAction::Init,
        r.failed_inits + 1 == 3 ==> spec_read_step(
            spec_read_step(r, ReadEvent::InitFailed).0,
            ReadEvent::Waited,
        ).1 == ReadAction::Finish(None),
{
}

/// A card that answers on the first, second or third try is always read:
/// after `k` failed tries, each followed by its wait, a successful one leads
/// to opening the file.
pub proof fn lemma_late_success_opens(buf_len: usize, k: u32)
    requires
        k < 3,
    ensures
        spec_read_step(
            ConfigRead { failed_inits: k, waiting: false, buf_len },
            ReadEvent::InitOk,
        ).1 == ReadAction::Open,
{
}

/// A file longer than the buffer is rejected whole; one that fits is read.
pub proof fn lemma_oversized_rejected(r: ConfigRead, file_len: u32)
    ensures
        file_len as int > r.buf_len as int ==> spec_read_step(
            r,
            ReadEvent::Opened { file_len },
        ).1 == ReadAction::Finish(None),
        file_len as int <= r.buf_len as int ==> spec_read_step(
            r,
            ReadEvent::Opened { file_len },
        ).1 == ReadAction::Read,
{
}

/// The third failed initialisation ends the read, after its wait, without a
/// result; an earlier one is followed, after its wait, by another try.
pub proof fn lemma_gives_up_after_retries(r: ConfigRead)
    requires
        r.failed_inits < INIT_RETRIES,
    ensures
        ({
            let (r1, a1) = spec_read_step(r, ReadEvent::InitFailed);
            let (r2, a2) = spec_read_step(r1, ReadEvent::Waited);
            &&& a1 == ReadAction::Wait { ms: RETRY_WAIT_MS }
            &&& r.failed_inits + 1 == INIT_RETRIES ==> a2 == ReadAction::Finish(None)
            &&& r.failed_inits + 1 < INIT_RETRIES ==> a2 == ReadAction::Init
        }),
{
}

/// The settings to draw with: those of the file that was read, or, when no
/// file could be read, those of the built-in text.
pub fn settings_after_read(read: Option<&[u8]>, fallback: &str) -> (s: Settings)
    ensures
        s@ == match read {
            Some(b) => settings_of_bytes(b@),
            None => settings_of(fallback@),
        },
        read is None ==> s@ == settings_of(fallback@),
        (read is Some) && vstd::utf8::valid_utf8(read->0@) ==> s@ == settings_of(
            vstd::utf8::decode_utf8(read->0@),
        ),
        (read is Some) && !vstd::utf8::valid_utf8(read->0@) ==> s@ == default_model(),
{
    match read {
        Some(b) => Settings::parse_bytes(b),
        None => Settings::parse(fallback),
    }
}

} // verus!
