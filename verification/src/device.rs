use vstd::prelude::*;
use crate::enums::{Direction, NONBLOCK};
use crate::error::{
    Error, check_unit, checked_unit, errno_of, from_code, from_const, from_size, spec_from_const,
    string_view, bytes_view,
};
use crate::info::{Info, info_view};
use crate::object::{allocated, alloc_then_query, filled};
use crate::params::{Params, Status, params_view, status_view};

verus! {

/// The open mode handed to `snd_rawmidi_open`.
pub open spec fn open_mode(nonblock: bool) -> i32 {
    if nonblock {
        NONBLOCK
    } else {
        0
    }
}

/// The arguments handed to `snd_rawmidi_open` besides the name: whether the
/// input slot is given, whether the output slot is given, and the mode. The
/// slot of the stream's direction is the one given.
pub open spec fn open_args(dir: Direction, nonblock: bool) -> (bool, bool, i32) {
    (dir == Direction::Capture, dir == Direction::Playback, open_mode(nonblock))
}

/// `snd_rawmidi_open` is given exactly one slot, the one of the stream's
/// direction, and the non-blocking bit exactly where non-blocking I/O is asked for.
pub proof fn lemma_open_args(dir: Direction, nonblock: bool)
    ensures
        NONBLOCK == 2,
        open_mode(nonblock) == (if nonblock {
            2i32
        } else {
            0i32
        }),
        open_args(dir, nonblock).0 != open_args(dir, nonblock).1,
        open_args(dir, nonblock).0 <==> dir == Direction::Capture,
        (open_args(dir, nonblock).2 == NONBLOCK) == nonblock,
        open_args(dir, nonblock).2 == NONBLOCK || open_args(dir, nonblock).2 == 0,
{
}

/// What checking a byte count returned by `func` gives.
pub open spec fn checked_size(func: &'static str, code: isize) -> Result<usize, Error> {
    if code < 0 {
        Err(Error { func, errno: errno_of(code as int) })
    } else {
        Ok(code as usize)
    }
}

/// A non-negative byte count is handed back unchanged, whatever its size; a
/// negative one is an error naming the C function, with the count negated as
/// `errno`.
pub proof fn lemma_checked_size_keeps_count(func: &'static str, code: isize)
    ensures
        code >= 0 ==> checked_size(func, code) is Ok,
        checked_size(func, code) matches Ok(n) ==> n as int == code as int,
        code < 0 && code >= -(i32::MAX as int) ==> checked_size(func, code) == Err::<usize, Error>(
            Error { func, errno: (-code) as i32 },
        ),
{
}

/// Whether `name` holds no NUL character, so that it can be handed to C.
pub open spec fn c_compatible(name: Seq<char>) -> bool {
    forall|i: int| 0 <= i < name.len() ==> name[i] != '\0'
}

/// The time at which input arrived (`struct timespec`).
#[derive(Debug, Clone, Copy, PartialEq, Eq)]
pub struct Timestamp {
    pub tv_sec: i64,
    pub tv_nsec: i64,
}

/// The poll events of a rawmidi stream (`POLLIN`, `POLLPRI`, `POLLOUT`,
/// `POLLERR`, `POLLHUP`, `POLLNVAL`).
#[derive(Debug, Clone, Copy, PartialEq, Eq)]
pub struct PollFlags {
    bits: i16,
}

/// The bits that a `PollFlags` can hold: `POLLIN | POLLPRI | POLLOUT |
/// POLLERR | POLLHUP | POLLNVAL`, whose values are 0x1, 0x2, 0x4, 0x8, 0x10
/// and 0x20 on every Linux target of `libc`.
pub open spec fn poll_all() -> i16 {
    0x3f
}

/// `libc::POLLIN`, 0x1 on every Linux target.
#[verifier::external_body]
fn poll_in() -> (b: i16)
    ensures
        b == 0x1,
{
    libc::POLLIN
}

/// `libc::POLLPRI`, 0x2 on every Linux target.
#[verifier::external_body]
fn poll_pri() -> (b: i16)
    ensures
        b == 0x2,
{
    libc::POLLPRI
}

/// `libc::POLLOUT`, 0x4 on every Linux target.
#[verifier::external_body]
fn poll_out() -> (b: i16)
    ensures
        b == 0x4,
{
    libc::POLLOUT
}

/// `libc::POLLERR`, 0x8 on every Linux target.
#[verifier::external_body]
fn poll_err() -> (b: i16)
    ensures
        b == 0x8,
{
    libc::POLLERR
}

/// `libc::POLLHUP`, 0x10 on every Linux target.
#[verifier::external_body]
fn poll_hup() -> (b: i16)
    ensures
        b == 0x10,
{
    libc::POLLHUP
}

/// `libc::POLLNVAL`, 0x20 on every Linux target.
#[verifier::external_body]
fn poll_nval() -> (b: i16)
    ensures
        b == 0x20,
{
    libc::POLLNVAL
}

/// The known poll flags are exactly the six bits 0x1 to 0x20; truncating
/// poll flags a second time changes nothing, and keeps no bit outside them.
pub proof fn lemma_truncate_idempotent(bits: i16)
    ensures
        poll_all() == 0x3f,
        (bits & poll_all()) & poll_all() == bits & poll_all(),
        (bits & poll_all()) & !poll_all() == 0,
{
    assert((bits & 0x3fi16) & 0x3fi16 == bits & 0x3fi16) by (bit_vector);
    assert((bits & 0x3fi16) & !0x3fi16 == 0) by (bit_vector);
}

impl PollFlags {
    /// The bits of these flags.
    pub closed spec fn spec_bits(self) -> i16 {
        self.bits
    }

    /// Every known flag.
    pub fn all() -> (f: PollFlags)
        ensures
            f.spec_bits() == poll_all(),
    {
        let a = poll_in();
        let b = poll_pri();
        let c = poll_out();
        let d = poll_err();
        let e = poll_hup();
        let g = poll_nval();
        let bits = a | b | c | d | e | g;
        assert(bits == 0x3fi16) by (bit_vector)
            requires
                a == 0x1i16,
                b == 0x2i16,
                c == 0x4i16,
                d == 0x8i16,
                e == 0x10i16,
                g == 0x20i16,
                bits == a | b | c | d | e | g,
        ;
        PollFlags { bits }
    }

    /// The flags among `bits` that are known; the other bits are dropped.
    pub fn from_bits_truncate(bits: i16) -> (f: PollFlags)
        ensures
            f.spec_bits() == bits & poll_all(),
    {
        let all = Self::all();
        PollFlags { bits: bits & all.bits }
    }

    /// The bits of these flags.
    pub fn bits(&self) -> (b: i16)
        ensures
            b == self.spec_bits(),
    {
        self.bits
    }
}

/// A `snd_rawmidi_t`: an open rawmidi stream, kept by ALSA behind `handle`
/// (0 where none is open).
#[derive(Debug)]
pub struct Rawmidi {
    handle: usize,
}

impl View for Rawmidi {
    type V = usize;

    closed spec fn view(&self) -> usize {
        self.handle
    }
}

/// A stream or error, with the stream taken by its handle.
pub open spec fn rawmidi_view(r: Result<Rawmidi, Error>) -> Result<usize, Error> {
    match r {
        Ok(p) => Ok(p@),
        Err(e) => Err(e),
    }
}

/// The byte stream of an open rawmidi stream, for `std::io::Read` and
/// `std::io::Write`.
#[derive(Debug)]
pub struct IO<'a> {
    rawmidi: &'a Rawmidi,
}

impl<'a> IO<'a> {
    /// The stream that this reads from and writes to.
    pub closed spec fn spec_rawmidi(&self) -> usize {
        self.rawmidi@
    }

    /// Reads into a buffer of `len` bytes: `call` performs `snd_rawmidi_read`
    /// and answers its return code; a negative code is handed back as it is,
    /// as the raw OS error.
    pub fn read<F: FnOnce(usize, usize) -> isize>(&mut self, len: usize, call: F) -> (r: Result<
        usize,
        i32,
    >)
        requires
            call.requires((old(self).spec_rawmidi(), len)),
        ensures
            final(self).spec_rawmidi() == old(self).spec_rawmidi(),
            exists|code: isize|
                call.ensures((old(self).spec_rawmidi(), len), code) && r == (if code < 0 {
                    Err::<usize, i32>(code as i32)
                } else {
                    Ok::<usize, i32>(code as usize)
                }),
    {
        let code = call(self.rawmidi.handle, len);
        if code < 0 {
            Err(code as i32)
        } else {
            Ok(code as usize)
        }
    }

    /// Writes a buffer of `len` bytes: `call` performs `snd_rawmidi_write` and
    /// answers its return code; a negative code is handed back as it is, as
    /// the raw OS error.
    pub fn write<F: FnOnce(usize, usize) -> isize>(&mut self, len: usize, call: F) -> (r: Result<
        usize,
        i32,
    >)
        requires
            call.requires((old(self).spec_rawmidi(), len)),
        ensures
            final(self).spec_rawmidi() == old(self).spec_rawmidi(),
            exists|code: isize|
                call.ensures((old(self).spec_rawmidi(), len), code) && r == (if code < 0 {
                    Err::<usize, i32>(code as i32)
                } else {
                    Ok::<usize, i32>(code as usize)
                }),
    {
        let code = call(self.rawmidi.handle, len);
        if code < 0 {
            Err(code as i32)
        } else {
            Ok(code as usize)
        }
    }

    /// Flushing has nothing to do: written bytes go straight to ALSA.
    pub fn flush(&mut self) -> (r: Result<(), i32>)
        ensures
            r == Ok::<(), i32>(()),
            final(self).spec_rawmidi() == old(self).spec_rawmidi(),
    {
        Ok(())
    }
}

impl Rawmidi {
    /// The address behind which ALSA keeps this stream.
    pub fn handle(&self) -> (h: usize)
        ensures
            h == self@,
    {
        self.handle
    }

    /// Opens the stream named by a C string: `call` performs `snd_rawmidi_open`
    /// with the name, giving the input slot where the first flag is true and
    /// the output slot where the second is, with the mode handed to it; it
    /// answers the return code and the address written to the slot.
    pub fn open<F: FnOnce(bool, bool, i32) -> (i32, usize)>(
        dir: Direction,
        nonblock: bool,
        call: F,
    ) -> (r: Result<Rawmidi, Error>)
        requires
            call.requires(open_args(dir, nonblock)),
        ensures
            exists|out: (i32, usize)|
                call.ensures(open_args(dir, nonblock), out) && rawmidi_view(r) == allocated(
                    "snd_rawmidi_open",
                    out,
                ),
    {
        let mode: i32 = if nonblock {
            NONBLOCK
        } else {
            0
        };
        let capture = match dir {
            Direction::Capture => true,
            Direction::Playback => false,
        };
        let out = call(capture, !capture, mode);
        let r = match from_code("snd_rawmidi_open", out.0) {
            Ok(_) => Ok(Rawmidi { handle: out.1 }),
            Err(e) => Err(e),
        };
        assert(rawmidi_view(r) == allocated("snd_rawmidi_open", out));
        r
    }

    /// Opens the stream named `name`, which holds no NUL character: `call`
    /// performs `snd_rawmidi_open` as for `open`, with `name` handed to it.
    pub fn new<F: FnOnce(&str, bool, bool, i32) -> (i32, usize)>(
        name: &str,
        dir: Direction,
        nonblock: bool,
        call: F,
    ) -> (r: Result<Rawmidi, Error>)
        requires
            c_compatible(name@),
            call.requires((name, open_args(dir, nonblock).0, open_args(dir, nonblock).1, open_args(dir, nonblock).2)),
        ensures
            exists|out: (i32, usize)|
                call.ensures(
                    (name, open_args(dir, nonblock).0, open_args(dir, nonblock).1, open_args(dir, nonblock).2),
                    out,
                ) && rawmidi_view(r) == allocated("snd_rawmidi_open", out),
    {
        Self::open(dir, nonblock, |i: bool, o: bool, m: i32| -> (out: (i32, usize))
            requires
                call.requires((name, i, o, m)),
            ensures
                call.ensures((name, i, o, m), out),
            { call(name, i, o, m) })
    }
    /// Looks up what ALSA tells of this stream: `alloc` performs
    /// `snd_rawmidi_info_malloc`, `query` performs `snd_rawmidi_info(self, info)`
    /// and answers its return code, `free` releases the info object where the
    /// query failed.
    pub fn info<A, Q, D>(&self, alloc: A, query: Q, free: D) -> (r: Result<Info, Error>) where
        A: FnOnce() -> (i32, usize),
        Q: FnOnce(usize, usize) -> i32,
        D: FnOnce(usize),

        requires
            alloc.requires(()),
            forall|o: (i32, usize)| #[trigger] alloc.ensures((), o) && o.0 >= 0 ==> query.requires(
                (self@, o.1),
            ),
            forall|h: usize, c: i32| #[trigger] query.ensures((self@, h), c) && c < 0 ==> free.requires(
                (h,),
            ),
        ensures
            exists|out: (i32, usize)|
                {
                    &&& alloc.ensures((), out)
                    &&& out.0 < 0 ==> info_view(r) == allocated("snd_rawmidi_info_malloc", out)
                    &&& out.0 >= 0 ==> exists|code: i32|
                        {
                            &&& query.ensures((self@, out.1), code)
                            &&& info_view(r) == filled("snd_rawmidi_info", out.1, code)
                            &&& code < 0 ==> free.ensures((out.1,), ())
                        }
                },
    {
        let rm = self.handle;
        let fill = |h: usize| -> (c: i32)
            requires
                query.requires((rm, h)),
            ensures
                query.ensures((rm, h), c),
            { query(rm, h) };
        assert forall|o: (i32, usize)| #[trigger] alloc.ensures((), o) && o.0 >= 0 implies fill.requires(
            (o.1,),
        ) by {
            assert(query.requires((self@, o.1)));
        }
        assert forall|h: usize, c: i32| #[trigger] fill.ensures((h,), c) && c < 0 implies free.requires(
            (h,),
        ) by {
            assert(query.ensures((self@, h), c));
        }
        match alloc_then_query("snd_rawmidi_info_malloc", "snd_rawmidi_info", alloc, fill, free) {
            Ok(h) => Ok(Info::from_handle(h)),
            Err(e) => Err(e),
        }
    }

    /// Looks up the status of this stream: `alloc` performs
    /// `snd_rawmidi_status_malloc`, `query` performs
    /// `snd_rawmidi_status(self, status)` and answers its return code, `free`
    /// releases the status object where the query failed.
    pub fn status<A, Q, D>(&self, alloc: A, query: Q, free: D) -> (r: Result<Status, Error>) where
        A: FnOnce() -> (i32, usize),
        Q: FnOnce(usize, usize) -> i32,
        D: FnOnce(usize),

        requires
            alloc.requires(()),
            forall|o: (i32, usize)| #[trigger] alloc.ensures((), o) && o.0 >= 0 ==> query.requires(
                (self@, o.1),
            ),
            forall|h: usize, c: i32| #[trigger] query.ensures((self@, h), c) && c < 0 ==> free.requires(
                (h,),
            ),
        ensures
            exists|out: (i32, usize)|
                {
                    &&& alloc.ensures((), out)
                    &&& out.0 < 0 ==> status_view(r) == allocated("snd_rawmidi_status_malloc", out)
                    &&& out.0 >= 0 ==> exists|code: i32|
                        {
                            &&& query.ensures((self@, out.1), code)
                            &&& status_view(r) == filled("snd_rawmidi_status", out.1, code)
                            &&& code < 0 ==> free.ensures((out.1,), ())
                        }
                },
    {
        let rm = self.handle;
        let fill = |h: usize| -> (c: i32)
            requires
                query.requires((rm, h)),
            ensures
                query.ensures((rm, h), c),
            { query(rm, h) };
        assert forall|o: (i32, usize)| #[trigger] alloc.ensures((), o) && o.0 >= 0 implies fill.requires(
            (o.1,),
        ) by {
            assert(query.requires((self@, o.1)));
        }
        assert forall|h: usize, c: i32| #[trigger] fill.ensures((h,), c) && c < 0 implies free.requires(
            (h,),
        ) by {
            assert(query.ensures((self@, h), c));
        }
        match alloc_then_query("snd_rawmidi_status_malloc", "snd_rawmidi_status", alloc, fill, free) {
            Ok(h) => Ok(Status::from_handle(h)),
            Err(e) => Err(e),
        }
    }

    /// Drops the bytes waiting in the buffer: `call` performs
    /// `snd_rawmidi_drop` and answers its return code.
    pub fn drop<F: FnOnce(usize) -> i32>(&self, call: F) -> (r: Result<(), Error>)
        requires
            call.requires((self@,)),
        ensures
            exists|code: i32|
                call.ensures((self@,), code) && r == checked_unit("snd_rawmidi_drop", code as int),
    {
        let code = call(self.handle);
        check_unit("snd_rawmidi_drop", code)
    }

    /// Waits until the buffered output is sent: `call` performs
    /// `snd_rawmidi_drain` and answers its return code.
    pub fn drain<F: FnOnce(usize) -> i32>(&self, call: F) -> (r: Result<(), Error>)
        requires
            call.requires((self@,)),
        ensures
            exists|code: i32|
                call.ensures((self@,), code) && r == checked_unit("snd_rawmidi_drain", code as int),
    {
        let code = call(self.handle);
        check_unit("snd_rawmidi_drain", code)
    }

    /// The name of the stream: `call` performs `snd_rawmidi_name` and answers
    /// the bytes of the C string, or `None` for a null pointer.
    pub fn name<F: FnOnce(usize) -> Option<Vec<u8>>>(&self, call: F) -> (r: Result<String, Error>)
        requires
            call.requires((self@,)),
        ensures
            exists|bytes: Option<Vec<u8>>|
                call.ensures((self@,), bytes) && string_view(r) == spec_from_const(
                    "snd_rawmidi_name",
                    bytes_view(bytes),
                ),
    {
        let bytes = call(self.handle);
        from_const("snd_rawmidi_name", bytes)
    }

    /// Reads into a buffer of `len` bytes: `call` performs `snd_rawmidi_read`
    /// and answers its return code, the number of bytes read.
    pub fn read<F: FnOnce(usize, usize) -> isize>(&self, len: usize, call: F) -> (r: Result<
        usize,
        Error,
    >)
        requires
            call.requires((self@, len)),
        ensures
            exists|code: isize|
                call.ensures((self@, len), code) && r == checked_size("snd_rawmidi_read", code),
    {
        let code = call(self.handle, len);
        let r = from_size("snd_rawmidi_read", code);
        assert(r == checked_size("snd_rawmidi_read", code));
        r
    }

    /// Reads into a buffer of `len` bytes with the time of arrival: `call`
    /// performs `snd_rawmidi_tread` with a zeroed timestamp to fill, and
    /// answers its return code and the timestamp it wrote.
    pub fn tread<F: FnOnce(usize, Timestamp, usize) -> (isize, Timestamp)>(
        &self,
        len: usize,
        call: F,
    ) -> (r: Result<(Timestamp, usize), Error>)
        requires
            call.requires((self@, Timestamp { tv_sec: 0, tv_nsec: 0 }, len)),
        ensures
            exists|out: (isize, Timestamp)|
                {
                    &&& #[trigger] call.ensures((self@, Timestamp { tv_sec: 0, tv_nsec: 0 }, len), out)
                    &&& r == match checked_size("snd_rawmidi_tread", out.0) {
                        Ok(n) => Ok((out.1, n)),
                        Err(e) => Err(e),
                    }
                },
    {
        let timestamp = Timestamp { tv_sec: 0, tv_nsec: 0 };
        let out = call(self.handle, timestamp, len);
        match from_size("snd_rawmidi_tread", out.0) {
            Ok(n) => Ok((out.1, n)),
            Err(e) => Err(e),
        }
    }

    /// Writes a buffer of `len` bytes: `call` performs `snd_rawmidi_write` and
    /// answers its return code, the number of bytes written.
    pub fn write<F: FnOnce(usize, usize) -> isize>(&self, len: usize, call: F) -> (r: Result<
        usize,
        Error,
    >)
        requires
            call.requires((self@, len)),
        ensures
            exists|code: isize|
                call.ensures((self@, len), code) && r == checked_size("snd_rawmidi_write", code),
    {
        let code = call(self.handle, len);
        let r = from_size("snd_rawmidi_write", code);
        assert(r == checked_size("snd_rawmidi_write", code));
        r
    }

    /// The byte stream of this rawmidi stream.
    pub fn io(&self) -> (io: IO<'_>)
        ensures
            io.spec_rawmidi() == self@,
    {
        IO { rawmidi: self }
    }

    /// Reads the current parameters of the stream: `alloc` performs
    /// `snd_rawmidi_params_malloc`, `query` performs
    /// `snd_rawmidi_params_current(self, params)` and answers its return code,
    /// `free` releases the params object where the query failed.
    pub fn params_current<A, Q, D>(&self, alloc: A, query: Q, free: D) -> (r: Result<
        Params,
        Error,
    >) where
        A: FnOnce() -> (i32, usize),
        Q: FnOnce(usize, usize) -> i32,
        D: FnOnce(usize),

        requires
            alloc.requires(()),
            forall|o: (i32, usize)| #[trigger] alloc.ensures((), o) && o.0 >= 0 ==> query.requires(
                (self@, o.1),
            ),
            forall|h: usize, c: i32| #[trigger] query.ensures((self@, h), c) && c < 0 ==> free.requires(
                (h,),
            ),
        ensures
            exists|out: (i32, usize)|
                {
                    &&& alloc.ensures((), out)
                    &&& out.0 < 0 ==> params_view(r) == allocated("snd_rawmidi_params_malloc", out)
                    &&& out.0 >= 0 ==> exists|code: i32|
                        {
                            &&& query.ensures((self@, out.1), code)
                            &&& params_view(r) == filled("snd_rawmidi_params_current", out.1, code)
                            &&& code < 0 ==> free.ensures((out.1,), ())
                        }
                },
    {
        let rm = self.handle;
        let fill = |h: usize| -> (c: i32)
            requires
                query.requires((rm, h)),
            ensures
                query.ensures((rm, h), c),
            { query(rm, h) };
        assert forall|o: (i32, usize)| #[trigger] alloc.ensures((), o) && o.0 >= 0 implies fill.requires(
            (o.1,),
        ) by {
            assert(query.requires((self@, o.1)));
        }
        assert forall|h: usize, c: i32| #[trigger] fill.ensures((h,), c) && c < 0 implies free.requires(
            (h,),
        ) by {
            assert(query.ensures((self@, h), c));
        }
        match alloc_then_query("snd_rawmidi_params_malloc", "snd_rawmidi_params_current", alloc, fill, free) {
            Ok(h) => Ok(Params::from_handle(h)),
            Err(e) => Err(e),
        }
    }

    /// Installs `params` on the stream: `call` performs
    /// `snd_rawmidi_params(self, params)` and answers its return code.
    pub fn params<F: FnOnce(usize, usize) -> i32>(&mut self, params: &Params, call: F) -> (r: Result<
        (),
        Error,
    >)
        requires
            call.requires((old(self)@, params@)),
        ensures
            final(self)@ == old(self)@,
            exists|code: i32|
                call.ensures((old(self)@, params@), code) && r == checked_unit(
                    "snd_rawmidi_params",
                    code as int,
                ),
    {
        let code = call(self.handle, params.handle());
        check_unit("snd_rawmidi_params", code)
    }

    /// The number of poll descriptors of the stream: `call` performs
    /// `snd_rawmidi_poll_descriptors_count`.
    pub fn count<F: FnOnce(usize) -> i32>(&self, call: F) -> (n: usize)
        requires
            call.requires((self@,)),
        ensures
            exists|v: i32| call.ensures((self@,), v) && n == v as usize,
    {
        let v = call(self.handle);
        v as usize
    }

    /// Fills a table of `space` poll descriptors: `call` performs
    /// `snd_rawmidi_poll_descriptors` with the room given as a C `unsigned`,
    /// and answers its return code, the number of descriptors filled.
    pub fn fill<F: FnOnce(usize, u32) -> i32>(&self, space: usize, call: F) -> (r: Result<
        usize,
        Error,
    >)
        requires
            call.requires((self@, space as u32)),
        ensures
            exists|z: i32|
                {
                    &&& #[trigger] call.ensures((self@, space as u32), z)
                    &&& r == match crate::error::checked("snd_rawmidi_poll_descriptors", z as int) {
                        Ok(_) => Ok(z as usize),
                        Err(e) => Err(e),
                    }
                },
    {
        let z = call(self.handle, space as u32);
        match from_code("snd_rawmidi_poll_descriptors", z) {
            Ok(_) => Ok(z as usize),
            Err(e) => Err(e),
        }
    }

    /// The events that occurred on a table of `space` poll descriptors:
    /// `call` performs `snd_rawmidi_poll_descriptors_revents` and answers its
    /// return code and the events it wrote; unknown event bits are dropped.
    pub fn revents<F: FnOnce(usize, u32) -> (i32, u16)>(&self, space: usize, call: F) -> (r: Result<
        PollFlags,
        Error,
    >)
        requires
            call.requires((self@, space as u32)),
        ensures
            exists|out: (i32, u16)|
                {
                    &&& #[trigger] call.ensures((self@, space as u32), out)
                    &&& (r is Ok <==> out.0 >= 0)
                    &&& r matches Ok(f) ==> f.spec_bits() == (out.1 as i16) & poll_all()
                    &&& r matches Err(e) ==> e == (Error {
                        func: "snd_rawmidi_poll_descriptors_revents",
                        errno: errno_of(out.0 as int),
                    })
                },
    {
        let out = call(self.handle, space as u32);
        match from_code("snd_rawmidi_poll_descriptors_revents", out.0) {
            Ok(_) => Ok(PollFlags::from_bits_truncate(out.1 as i16)),
            Err(e) => Err(e),
        }
    }

    /// Closes the stream where one is open: `call` performs `snd_rawmidi_close`,
    /// whose return code is not looked at.
    pub fn close<F: FnOnce(usize) -> i32>(&self, call: F)
        requires
            self@ != 0 ==> call.requires((self@,)),
        ensures
            self@ != 0 ==> exists|code: i32| call.ensures((self@,), code),
    {
        if self.handle != 0 {
            let _ = call(self.handle);
        }
    }
}

} // verus!
