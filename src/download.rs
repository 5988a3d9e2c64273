//! The session of one archive download: its steps, byte accounting, throttled
//! progress reports, and the progress figures shown to the user.

use vstd::prelude::*;
use crate::errors::Verror;
use crate::text::{decimal, decimal_text, two_digit_text, two_digits};

verus! {

/// The least time between two progress reports, in milliseconds.
pub const UPDATE_RATE: u64 = 1000;

/// The steps of a download, in their only order.
#[derive(Debug, Clone, Copy, PartialEq, Eq)]
pub enum DownloadSteps {
    /// The session exists; the game is looked up and its folder made.
    Starting,
    /// The archive is being received.
    Downloading,
    /// The received archive is being unpacked.
    Extracting,
    /// Leftovers of the download are removed.
    Cleaning,
    /// The catalog records the game as downloaded.
    Complete,
}

/// The steps that may follow `from`: one step forward, where an archive that
/// needs no extraction goes from `Downloading` straight to `Complete`.
pub open spec fn can_advance(from: DownloadSteps, to: DownloadSteps, need_extract: bool) -> bool {
    match (from, to) {
        (DownloadSteps::Starting, DownloadSteps::Downloading) => true,
        (DownloadSteps::Downloading, DownloadSteps::Extracting) => need_extract,
        (DownloadSteps::Downloading, DownloadSteps::Complete) => !need_extract,
        (DownloadSteps::Extracting, DownloadSteps::Cleaning) => true,
        (DownloadSteps::Cleaning, DownloadSteps::Complete) => true,
        _ => false,
    }
}

/// The position of a step in the order of steps.
pub open spec fn step_rank(s: DownloadSteps) -> nat {
    match s {
        DownloadSteps::Starting => 0,
        DownloadSteps::Downloading => 1,
        DownloadSteps::Extracting => 2,
        DownloadSteps::Cleaning => 3,
        DownloadSteps::Complete => 4,
    }
}

/// One progress report of a download.
#[derive(Debug, Clone, PartialEq, Eq)]
pub struct ProgressSnapshot {
    pub game_id: u8,
    pub file_size: u64,
    pub downloaded: u64,
    /// Received share with two decimals, e.g. `"42.17%"`.
    pub percentage: String,
    /// Average speed since the start, e.g. `"1.50 MB/s"`.
    pub speed: String,
    /// Estimated time left: `"Hh Mmin"`, `"Nmin(s)"` or `"Ss"`.
    pub remaining_time: String,
    pub steps: DownloadSteps,
}

/// The state of one archive download. Its fields change only through the
/// methods below, which keep the steps in order and the counted bytes within
/// the announced size.
#[derive(Debug, Clone, PartialEq, Eq)]
pub struct GameDownload {
    game_id: u8,
    file_size: u64,
    downloaded: u64,
    time_start: Option<u64>,
    steps: DownloadSteps,
    event_name: String,
    need_extract: bool,
    last_advertised: Option<u64>,
}

/// What a download session holds.
pub struct SessionView {
    pub game_id: u8,
    /// The size that the server announced.
    pub file_size: u64,
    /// Bytes received so far, never above `file_size`.
    pub downloaded: u64,
    /// When the transfer started, in milliseconds of the caller's monotonic clock.
    pub time_start: Option<u64>,
    pub steps: DownloadSteps,
    /// The name of this game's progress event.
    pub event_name: Seq<char>,
    /// Whether the archive is unpacked after the transfer.
    pub need_extract: bool,
    /// When the last progress report was due, in milliseconds.
    pub last_advertised: Option<u64>,
}

impl View for GameDownload {
    type V = SessionView;

    closed spec fn view(&self) -> SessionView {
        SessionView {
            game_id: self.game_id,
            file_size: self.file_size,
            downloaded: self.downloaded,
            time_start: self.time_start,
            steps: self.steps,
            event_name: self.event_name@,
            need_extract: self.need_extract,
            last_advertised: self.last_advertised,
        }
    }
}

/// The name of the progress event of game `id`.
pub open spec fn progress_event_name(id: u8) -> Seq<char> {
    "download_progress_"@ + decimal(id as nat)
}

/// Milliseconds since the start, zero before it.
pub open spec fn elapsed_ms(time_start: Option<u64>, now_ms: u64) -> nat {
    match time_start {
        Some(t) => if now_ms >= t {
            (now_ms - t) as nat
        } else {
            0
        },
        None => 0,
    }
}

/// Received share in hundredths of a percent, rounded down; an empty file
/// counts as fully received.
pub open spec fn percent_hundredths(downloaded: u64, file_size: u64) -> nat {
    if file_size == 0 {
        10000
    } else {
        ((downloaded as int) * 10000 / (file_size as int)) as nat
    }
}

/// A number of hundredths with two decimals.
pub open spec fn hundredths_text(h: nat) -> Seq<char> {
    decimal(h / 100) + "."@ + two_digits(h % 100)
}

pub open spec fn percent_text(downloaded: u64, file_size: u64) -> Seq<char> {
    hundredths_text(percent_hundredths(downloaded, file_size)) + "%"@
}

/// Average speed in hundredths of MB/s (1 MB = 1048576 bytes), rounded down;
/// zero before any time has passed.
pub open spec fn speed_hundredths(downloaded: u64, elapsed: nat) -> nat {
    if elapsed == 0 {
        0
    } else {
        ((downloaded as int) * 100000 / (1048576 * (elapsed as int))) as nat
    }
}

pub open spec fn speed_text(downloaded: u64, elapsed: nat) -> Seq<char> {
    hundredths_text(speed_hundredths(downloaded, elapsed)) + " MB/s"@
}

/// Seconds left at the average rate so far, rounded down: none is known
/// before a byte has arrived or time has passed, unless all has arrived.
pub open spec fn remaining_seconds(downloaded: u64, file_size: u64, elapsed: nat) -> Option<nat> {
    if downloaded >= file_size {
        Some(0)
    } else if downloaded == 0 || elapsed == 0 {
        None
    } else {
        Some((((file_size - downloaded) as int) * (elapsed as int) / (downloaded as int) / 1000) as nat)
    }
}

/// Time left as shown: hours and minutes above an hour, minutes above a
/// minute, seconds otherwise.
pub open spec fn remaining_text(secs: Option<nat>) -> Seq<char> {
    match secs {
        None => "unknown"@,
        Some(s) => if s > 3600 {
            decimal(s / 3600) + "h "@ + decimal((s % 3600) / 60) + "min"@
        } else if s > 60 {
            decimal(s / 60) + "min(s)"@
        } else {
            decimal(s) + "s"@
        },
    }
}

/// Bytes counted after a chunk of `chunk` bytes, capped by the announced size.
pub open spec fn count_chunk(downloaded: u64, file_size: u64, chunk: u64) -> u64 {
    if downloaded + chunk <= file_size {
        (downloaded + chunk) as u64
    } else {
        file_size
    }
}

/// A progress report is due when none was made yet or at least
/// `UPDATE_RATE` milliseconds have passed since the last one.
pub open spec fn report_due(last: Option<u64>, now_ms: u64) -> bool {
    match last {
        None => true,
        Some(t) => now_ms >= t + UPDATE_RATE,
    }
}

fn hundredths_string(h: u128) -> (r: String)
    ensures
        r@ == hundredths_text(h as nat),
{
    let mut s = decimal_text(h / 100);
    s.append(".");
    let f = two_digit_text(h % 100);
    s.append(f.as_str());
    s
}

impl GameDownload {
    /// Bytes never exceed the announced size.
    pub open spec fn wf(&self) -> bool {
        self@.downloaded <= self@.file_size
    }

    /// A session for game `game_id` in its first step.
    pub fn new(game_id: u8, need_extract: bool) -> (r: Self)
        ensures
            r.wf(),
            r@.game_id == game_id,
            r@.file_size == 0,
            r@.downloaded == 0,
            r@.time_start is None,
            r@.steps == DownloadSteps::Starting,
            r@.event_name == progress_event_name(game_id),
            r@.need_extract == need_extract,
            r@.last_advertised is None,
    {
        let mut event_name = String::from_str("download_progress_");
        let d = decimal_text(game_id as u128);
        event_name.append(d.as_str());
        GameDownload {
            game_id,
            file_size: 0,
            downloaded: 0,
            time_start: None,
            steps: DownloadSteps::Starting,
            event_name,
            need_extract,
            last_advertised: None,
        }
    }

    pub fn game_id(&self) -> (r: u8)
        ensures
            r == self@.game_id,
    {
        self.game_id
    }

    pub fn file_size(&self) -> (r: u64)
        ensures
            r == self@.file_size,
    {
        self.file_size
    }

    pub fn downloaded(&self) -> (r: u64)
        ensures
            r == self@.downloaded,
    {
        self.downloaded
    }

    pub fn time_start(&self) -> (r: Option<u64>)
        ensures
            r == self@.time_start,
    {
        self.time_start
    }

    pub fn steps(&self) -> (r: DownloadSteps)
        ensures
            r == self@.steps,
    {
        self.steps
    }

    pub fn event_name(&self) -> (r: &str)
        ensures
            r@ == self@.event_name,
    {
        self.event_name.as_str()
    }

    pub fn need_extract(&self) -> (r: bool)
        ensures
            r == self@.need_extract,
    {
        self.need_extract
    }

    /// Records the announced size; bytes already counted are capped by it.
    pub fn set_file_size(&mut self, file_size: u64)
        ensures
            final(self).wf(),
            final(self)@.file_size == file_size,
            final(self)@.downloaded == if old(self)@.downloaded <= file_size {
                old(self)@.downloaded
            } else {
                file_size
            },
            final(self)@.game_id == old(self)@.game_id,
            final(self)@.steps == old(self)@.steps,
            final(self)@.time_start == old(self)@.time_start,
            final(self)@.event_name == old(self)@.event_name,
            final(self)@.need_extract == old(self)@.need_extract,
            final(self)@.last_advertised == old(self)@.last_advertised,
    {
        self.file_size = file_size;
        if self.downloaded > file_size {
            self.downloaded = file_size;
        }
    }

    /// Records when the transfer started.
    pub fn set_start_time(&mut self, now_ms: u64)
        ensures
            final(self)@ == (SessionView { time_start: Some(now_ms), ..old(self)@ }),
    {
        self.time_start = Some(now_ms);
    }

    /// Moves to `step` when it may follow the current step; otherwise nothing
    /// changes. Returns whether it moved.
    pub fn set_steps(&mut self, step: DownloadSteps) -> (moved: bool)
        ensures
            moved == can_advance(old(self)@.steps, step, old(self)@.need_extract),
            moved ==> final(self)@ == (SessionView { steps: step, ..old(self)@ }),
            !moved ==> final(self)@ == old(self)@,
    {
        let ok = match (self.steps, step) {
            (DownloadSteps::Starting, DownloadSteps::Downloading) => true,
            (DownloadSteps::Downloading, DownloadSteps::Extracting) => self.need_extract,
            (DownloadSteps::Downloading, DownloadSteps::Complete) => !self.need_extract,
            (DownloadSteps::Extracting, DownloadSteps::Cleaning) => true,
            (DownloadSteps::Cleaning, DownloadSteps::Complete) => true,
            _ => false,
        };
        if ok {
            self.steps = step;
        }
        ok
    }

    /// Starts the transfer once the server has answered: the announced
    /// length becomes the file size. Without a length the transfer cannot be
    /// followed and fails; the session is then left as it was.
    pub fn begin_transfer(&mut self, content_length: Option<u64>, now_ms: u64) -> (r: Result<(), Verror>)
        requires
            old(self)@.steps == DownloadSteps::Starting,
            old(self)@.downloaded == 0,
        ensures
            r is Ok <==> content_length is Some,
            r is Err ==> final(self)@ == old(self)@ && r matches Err(Verror::TransferError(_)),
            content_length matches Some(n) ==> final(self)@ == (SessionView {
                file_size: n,
                time_start: Some(now_ms),
                steps: DownloadSteps::Downloading,
                ..old(self)@
            }),
            final(self).wf(),
    {
        match content_length {
            Some(n) => {
                self.file_size = n;
                self.time_start = Some(now_ms);
                self.steps = DownloadSteps::Downloading;
                Ok(())
            },
            None => Err(Verror::TransferError(String::from_str("the server announced no content length"))),
        }
    }

    /// Counts a received chunk of `chunk_len` bytes, never beyond the
    /// announced size, and says whether a progress report is due now.
    pub fn update(&mut self, chunk_len: u64, now_ms: u64) -> (advertise: bool)
        requires
            old(self).wf(),
        ensures
            final(self).wf(),
            final(self)@.downloaded == count_chunk(old(self)@.downloaded, old(self)@.file_size, chunk_len),
            old(self)@.downloaded <= final(self)@.downloaded,
            advertise == report_due(old(self)@.last_advertised, now_ms),
            final(self)@.last_advertised == if advertise {
                Some(now_ms)
            } else {
                old(self)@.last_advertised
            },
            final(self)@.game_id == old(self)@.game_id,
            final(self)@.file_size == old(self)@.file_size,
            final(self)@.time_start == old(self)@.time_start,
            final(self)@.steps == old(self)@.steps,
            final(self)@.event_name == old(self)@.event_name,
            final(self)@.need_extract == old(self)@.need_extract,
    {
        let room = self.file_size - self.downloaded;
        if chunk_len <= room {
            self.downloaded = self.downloaded + chunk_len;
        } else {
            self.downloaded = self.file_size;
        }
        let due = match self.last_advertised {
            None => true,
            Some(t) => t <= u64::MAX - UPDATE_RATE && now_ms >= t + UPDATE_RATE,
        };
        if due {
            self.last_advertised = Some(now_ms);
        }
        due
    }

    /// Ends the transfer: it succeeds only when every announced byte arrived.
    pub fn finish_transfer(&self) -> (r: Result<(), Verror>)
        requires
            self.wf(),
        ensures
            r is Ok <==> self@.downloaded == self@.file_size,
            r is Err ==> r matches Err(Verror::TransferError(_)),
    {
        if self.downloaded == self.file_size {
            Ok(())
        } else {
            let mut m = String::from_str("the transfer ended after ");
            let d = decimal_text(self.downloaded as u128);
            m.append(d.as_str());
            m.append(" of ");
            let f = decimal_text(self.file_size as u128);
            m.append(f.as_str());
            m.append(" bytes");
            Err(Verror::TransferError(m))
        }
    }

    fn elapsed(&self, now_ms: u64) -> (r: u64)
        ensures
            r as nat == elapsed_ms(self@.time_start, now_ms),
    {
        match self.time_start {
            Some(t) => if now_ms >= t {
                now_ms - t
            } else {
                0
            },
            None => 0,
        }
    }

    /// The received share, e.g. `"42.17%"`.
    pub fn get_percentage(&self) -> (r: String)
        ensures
            r@ == percent_text(self@.downloaded, self@.file_size),
    {
        let h: u128 = if self.file_size == 0 {
            10000
        } else {
            (self.downloaded as u128) * 10000 / (self.file_size as u128)
        };
        let mut s = hundredths_string(h);
        s.append("%");
        s
    }

    /// The average speed since the start, e.g. `"1.50 MB/s"`.
    pub fn get_speed_mb(&self, now_ms: u64) -> (r: String)
        ensures
            r@ == speed_text(self@.downloaded, elapsed_ms(self@.time_start, now_ms)),
    {
        let e = self.elapsed(now_ms);
        let h: u128 = if e == 0 {
            0
        } else {
            (self.downloaded as u128) * 100000 / (1048576 * (e as u128))
        };
        let mut s = hundredths_string(h);
        s.append(" MB/s");
        s
    }

    /// Seconds left at the average rate so far, when known.
    pub fn get_remaining_time(&self, now_ms: u64) -> (r: Option<u128>)
        requires
            self.wf(),
        ensures
            match r {
                Some(s) => remaining_seconds(self@.downloaded, self@.file_size, elapsed_ms(self@.time_start, now_ms)) == Some(s as nat),
                None => remaining_seconds(self@.downloaded, self@.file_size, elapsed_ms(self@.time_start, now_ms)) is None,
            },
    {
        let e = self.elapsed(now_ms);
        if self.downloaded >= self.file_size {
            Some(0)
        } else if self.downloaded == 0 || e == 0 {
            None
        } else {
            let left = (self.file_size - self.downloaded) as u128;
            proof {
                vstd::arithmetic::mul::lemma_mul_upper_bound(
                    left as int,
                    u64::MAX as int,
                    e as int,
                    u64::MAX as int,
                );
            }
            Some(left * (e as u128) / (self.downloaded as u128) / 1000)
        }
    }

    /// The time left as shown to the user.
    pub fn get_formated_remaining_time(&self, now_ms: u64) -> (r: String)
        requires
            self.wf(),
        ensures
            r@ == remaining_text(remaining_seconds(self@.downloaded, self@.file_size, elapsed_ms(self@.time_start, now_ms))),
    {
        match self.get_remaining_time(now_ms) {
            None => String::from_str("unknown"),
            Some(s) => if s > 3600 {
                let mut t = decimal_text(s / 3600);
                t.append("h ");
                let m = decimal_text((s % 3600) / 60);
                t.append(m.as_str());
                t.append("min");
                t
            } else if s > 60 {
                let mut t = decimal_text(s / 60);
                t.append("min(s)");
                t
            } else {
                let mut t = decimal_text(s);
                t.append("s");
                t
            },
        }
    }

    /// The progress report of this session at time `now_ms`.
    pub fn get_state(&self, now_ms: u64) -> (r: ProgressSnapshot)
        requires
            self.wf(),
        ensures
            r.game_id == self@.game_id,
            r.file_size == self@.file_size,
            r.downloaded == self@.downloaded,
            r.percentage@ == percent_text(self@.downloaded, self@.file_size),
            r.speed@ == speed_text(self@.downloaded, elapsed_ms(self@.time_start, now_ms)),
            r.remaining_time@ == remaining_text(remaining_seconds(self@.downloaded, self@.file_size, elapsed_ms(self@.time_start, now_ms))),
            r.steps == self@.steps,
    {
        ProgressSnapshot {
            game_id: self.game_id,
            file_size: self.file_size,
            downloaded: self.downloaded,
            percentage: self.get_percentage(),
            speed: self.get_speed_mb(now_ms),
            remaining_time: self.get_formated_remaining_time(now_ms),
            steps: self.steps,
        }
    }
}

} // verus!
