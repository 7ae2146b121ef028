use vstd::prelude::*;
use crate::error::{Error, unsupported};

verus! {

/// The direction of a stream: playback (output) or capture (input).
#[derive(Debug, Clone, Copy, PartialEq, Eq)]
pub enum Direction {
    Playback,
    Capture,
}

impl Direction {
    /// The direction of an input stream.
    pub fn input() -> (d: Direction)
        ensures
            d == Direction::Capture,
    {
        Direction::Capture
    }

    /// The direction of an output stream.
    pub fn output() -> (d: Direction)
        ensures
            d == Direction::Playback,
    {
        Direction::Playback
    }
}

/// `SND_RAWMIDI_STREAM_OUTPUT`: the C value of an output stream.
pub const STREAM_OUTPUT: u32 = 0;

/// `SND_RAWMIDI_STREAM_INPUT`: the C value of an input stream.
pub const STREAM_INPUT: u32 = 1;

/// `SND_RAWMIDI_NONBLOCK`: the open mode bit for non-blocking I/O.
pub const NONBLOCK: i32 = 2;

/// The C stream value that stands for a direction.
pub open spec fn spec_stream_of(dir: Direction) -> u32 {
    match dir {
        Direction::Playback => STREAM_OUTPUT,
        Direction::Capture => STREAM_INPUT,
    }
}

/// The direction that a C stream value reads as: output is playback, any
/// other value capture.
pub open spec fn spec_direction_of(stream: u32) -> Direction {
    if stream == STREAM_OUTPUT {
        Direction::Playback
    } else {
        Direction::Capture
    }
}

/// The C stream value handed to ALSA for a direction.
pub fn stream_of(dir: Direction) -> (s: u32)
    ensures
        s == spec_stream_of(dir),
{
    match dir {
        Direction::Playback => STREAM_OUTPUT,
        Direction::Capture => STREAM_INPUT,
    }
}

/// The direction that ALSA's stream value stands for.
pub fn direction_of(stream: u32) -> (d: Direction)
    ensures
        d == spec_direction_of(stream),
{
    if stream == STREAM_OUTPUT {
        Direction::Playback
    } else {
        Direction::Capture
    }
}

/// Reading back the stream value of a direction gives that direction.
pub proof fn lemma_stream_round_trip(dir: Direction)
    ensures
        spec_direction_of(spec_stream_of(dir)) == dir,
{
}

/// How reads from an input stream are framed (`SND_RAWMIDI_READ_*`).
#[derive(Debug, Clone, Copy, PartialEq, Eq)]
pub enum ReadMode {
    Standard,
    Timestamp,
}

/// The C value of a read mode.
pub open spec fn read_mode_value(m: ReadMode) -> i32 {
    match m {
        ReadMode::Standard => 0,
        ReadMode::Timestamp => 1,
    }
}

/// The read mode whose C value is `c`, if there is one.
pub open spec fn read_mode_from_value(c: i32) -> Option<ReadMode> {
    if c == 0 {
        Some(ReadMode::Standard)
    } else if c == 1 {
        Some(ReadMode::Timestamp)
    } else {
        None
    }
}

/// Every read mode, in the order of their C values.
pub open spec fn all_read_modes() -> Seq<ReadMode> {
    seq![ReadMode::Standard, ReadMode::Timestamp]
}

impl ReadMode {
    /// Every read mode, in the order of their C values.
    pub fn all() -> (v: Vec<ReadMode>)
        ensures
            v@ == all_read_modes(),
    {
        vec![ReadMode::Standard, ReadMode::Timestamp]
    }

    /// The C value of this read mode.
    pub fn to_c_int(&self) -> (c: i32)
        ensures
            c == read_mode_value(*self),
    {
        match self {
            ReadMode::Standard => 0,
            ReadMode::Timestamp => 1,
        }
    }

    /// The read mode whose C value is `c`; an "unsupported" error naming `func`
    /// where no read mode has that value.
    pub fn from_c_int(c: i32, func: &'static str) -> (r: Result<ReadMode, Error>)
        ensures
            r is Ok <==> read_mode_from_value(c) is Some,
            r matches Ok(m) ==> read_mode_from_value(c) == Some(m),
            r matches Err(e) ==> e.func == func && e.errno > 0,
    {
        let all = Self::all();
        let mut i: usize = 0;
        while i < all.len()
            invariant
                all@ == all_read_modes(),
                i <= all.len(),
                forall|j: int| 0 <= j < i ==> read_mode_value(#[trigger] all@[j]) != c,
            decreases all.len() - i,
        {
            if all[i].to_c_int() == c {
                return Ok(all[i]);
            }
            i = i + 1;
        }
        assert(read_mode_value(all@[0]) != c && read_mode_value(all@[1]) != c);
        Err(unsupported(func))
    }
}

/// The clock that stamps input bytes (`SND_RAWMIDI_CLOCK_*`).
#[derive(Debug, Clone, Copy, PartialEq, Eq)]
pub enum Clock {
    NoClock,
    Realtime,
    Monotonic,
    MonotonicRaw,
}

/// The C value of a clock.
pub open spec fn clock_value(k: Clock) -> i32 {
    match k {
        Clock::NoClock => 0,
        Clock::Realtime => 1,
        Clock::Monotonic => 2,
        Clock::MonotonicRaw => 3,
    }
}

/// The clock whose C value is `c`, if there is one.
pub open spec fn clock_from_value(c: i32) -> Option<Clock> {
    if c == 0 {
        Some(Clock::NoClock)
    } else if c == 1 {
        Some(Clock::Realtime)
    } else if c == 2 {
        Some(Clock::Monotonic)
    } else if c == 3 {
        Some(Clock::MonotonicRaw)
    } else {
        None
    }
}

/// Every clock, in the order of their C values.
pub open spec fn all_clocks() -> Seq<Clock> {
    seq![Clock::NoClock, Clock::Realtime, Clock::Monotonic, Clock::MonotonicRaw]
}

impl Clock {
    /// Every clock, in the order of their C values.
    pub fn all() -> (v: Vec<Clock>)
        ensures
            v@ == all_clocks(),
    {
        vec![Clock::NoClock, Clock::Realtime, Clock::Monotonic, Clock::MonotonicRaw]
    }

    /// The C value of this clock.
    pub fn to_c_int(&self) -> (c: i32)
        ensures
            c == clock_value(*self),
    {
        match self {
            Clock::NoClock => 0,
            Clock::Realtime => 1,
            Clock::Monotonic => 2,
            Clock::MonotonicRaw => 3,
        }
    }

    /// The clock whose C value is `c`; an "unsupported" error naming `func`
    /// where no clock has that value.
    pub fn from_c_int(c: i32, func: &'static str) -> (r: Result<Clock, Error>)
        ensures
            r is Ok <==> clock_from_value(c) is Some,
            r matches Ok(k) ==> clock_from_value(c) == Some(k),
            r matches Err(e) ==> e.func == func && e.errno > 0,
    {
        let all = Self::all();
        let mut i: usize = 0;
        while i < all.len()
            invariant
                all@ == all_clocks(),
                i <= all.len(),
                forall|j: int| 0 <= j < i ==> clock_value(#[trigger] all@[j]) != c,
            decreases all.len() - i,
        {
            if all[i].to_c_int() == c {
                return Ok(all[i]);
            }
            i = i + 1;
        }
        assert(clock_value(all@[0]) != c && clock_value(all@[1]) != c);
        assert(clock_value(all@[2]) != c && clock_value(all@[3]) != c);
        Err(unsupported(func))
    }
}

/// Every read mode reads back from its own C value.
pub proof fn lemma_read_mode_round_trip(m: ReadMode)
    ensures
        read_mode_from_value(read_mode_value(m)) == Some(m),
{
}

/// Every clock reads back from its own C value.
pub proof fn lemma_clock_round_trip(k: Clock)
    ensures
        clock_from_value(clock_value(k)) == Some(k),
{
}

/// The C value of each clock is ALSA's `SND_RAWMIDI_CLOCK_*` constant
/// (none 0, realtime 1, monotonic 2, raw monotonic 3), which is its place in
/// `all()`; no other value reads as a clock.
pub proof fn lemma_clock_values(k: Clock, c: i32)
    ensures
        clock_value(Clock::NoClock) == 0,
        clock_value(Clock::Realtime) == 1,
        clock_value(Clock::Monotonic) == 2,
        clock_value(Clock::MonotonicRaw) == 3,
        all_clocks()[clock_value(k) as int] == k,
        clock_from_value(c) is Some <==> 0 <= c <= 3,
        0 <= c <= 3 ==> clock_from_value(c) == Some(all_clocks()[c as int]),
{
}

/// The C value of each read mode is ALSA's `SND_RAWMIDI_READ_*` constant
/// (standard 0, timestamp 1), which is its place in `all()`; no other value
/// reads as a read mode.
pub proof fn lemma_read_mode_values(m: ReadMode, c: i32)
    ensures
        read_mode_value(ReadMode::Standard) == 0,
        read_mode_value(ReadMode::Timestamp) == 1,
        all_read_modes()[read_mode_value(m) as int] == m,
        read_mode_from_value(c) is Some <==> 0 <= c <= 1,
        0 <= c <= 1 ==> read_mode_from_value(c) == Some(all_read_modes()[c as int]),
{
}

/// The stream value of a direction is ALSA's `SND_RAWMIDI_STREAM_*`
/// constant: output 0 for playback, input 1 for capture.
pub proof fn lemma_stream_values(dir: Direction)
    ensures
        spec_stream_of(Direction::Playback) == 0,
        spec_stream_of(Direction::Capture) == 1,
        spec_stream_of(dir) <= 1,
{
}

} // verus!
