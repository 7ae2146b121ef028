use vstd::prelude::*;
use crate::enums::{Clock, ReadMode, clock_from_value, clock_value, read_mode_from_value, read_mode_value};
use crate::error::{Error, check_unit, checked_unit, from_code};
use crate::device::Rawmidi;
use crate::object::allocated;

verus! {

/// The C value handed to ALSA for a flag.
pub open spec fn flag_value(val: bool) -> i32 {
    if val {
        1
    } else {
        0
    }
}

/// Reading back the C value that a flag is set with gives that flag.
pub proof fn lemma_flag_round_trip(val: bool)
    ensures
        flag_value(true) == 1,
        flag_value(false) == 0,
        (flag_value(val) != 0) == val,
{
}

/// A `snd_rawmidi_params_t`: the parameters of a rawmidi stream, kept by ALSA
/// behind `handle`.
#[derive(Debug)]
pub struct Params {
    handle: usize,
}

impl View for Params {
    type V = usize;

    closed spec fn view(&self) -> usize {
        self.handle
    }
}

/// A params object or error, with the object taken by its handle.
pub open spec fn params_view(r: Result<Params, Error>) -> Result<usize, Error> {
    match r {
        Ok(p) => Ok(p@),
        Err(e) => Err(e),
    }
}

impl Params {
    /// Allocates a params object: `alloc` performs `snd_rawmidi_params_malloc`
    /// and answers its return code and the address it wrote.
    pub fn new<F: FnOnce() -> (i32, usize)>(alloc: F) -> (r: Result<Params, Error>)
        requires
            alloc.requires(()),
        ensures
            exists|out: (i32, usize)|
                alloc.ensures((), out) && params_view(r) == allocated(
                    "snd_rawmidi_params_malloc",
                    out,
                ),
    {
        let out = alloc();
        let r = match from_code("snd_rawmidi_params_malloc", out.0) {
            Ok(_) => Ok(Params { handle: out.1 }),
            Err(e) => Err(e),
        };
        assert(params_view(r) == allocated("snd_rawmidi_params_malloc", out));
        r
    }

    /// The address behind which ALSA keeps this object.
    pub fn handle(&self) -> (h: usize)
        ensures
            h == self@,
    {
        self.handle
    }

    /// The params object that ALSA keeps behind `handle`.
    pub(crate) fn from_handle(handle: usize) -> (p: Params)
        ensures
            p@ == handle,
    {
        Params { handle }
    }

    /// Copies `source` into this object: `call` performs
    /// `snd_rawmidi_params_copy(self, source)`.
    pub fn copy<F: FnOnce(usize, usize)>(&mut self, source: &Self, call: F)
        requires
            call.requires((old(self)@, source@)),
        ensures
            final(self)@ == old(self)@,
            call.ensures((old(self)@, source@), ()),
    {
        call(self.handle, source.handle)
    }

    /// The size of the buffer: `call` performs `snd_rawmidi_params_get_buffer_size`.
    pub fn get_buffer_size<F: FnOnce(usize) -> usize>(&self, call: F) -> (n: usize)
        requires
            call.requires((self@,)),
        ensures
            call.ensures((self@,), n),
    {
        call(self.handle)
    }

    /// The number of bytes that wakes a reader or writer: `call` performs
    /// `snd_rawmidi_params_get_avail_min`.
    pub fn get_avail_min<F: FnOnce(usize) -> usize>(&self, call: F) -> (n: usize)
        requires
            call.requires((self@,)),
        ensures
            call.ensures((self@,), n),
    {
        call(self.handle)
    }

    /// Sets the number of bytes that wakes a reader or writer: `call` performs
    /// `snd_rawmidi_params_set_avail_min(rawmidi, self, val)` and answers its
    /// return code.
    pub fn set_avail_min<F: FnOnce(usize, usize, usize) -> i32>(
        &mut self,
        rawmidi: &Rawmidi,
        val: usize,
        call: F,
    ) -> (r: Result<(), Error>)
        requires
            call.requires((rawmidi@, old(self)@, val)),
        ensures
            final(self)@ == old(self)@,
            exists|code: i32|
                call.ensures((rawmidi@, old(self)@, val), code) && r == checked_unit(
                    "snd_rawmidi_params_set_avail_min",
                    code as int,
                ),
    {
        let code = call(rawmidi.handle(), self.handle, val);
        check_unit("snd_rawmidi_params_set_avail_min", code)
    }

    /// Whether active sensing bytes are left out: `call` performs
    /// `snd_rawmidi_params_get_no_active_sensing`; any value but 0 is true.
    pub fn get_no_active_sensing<F: FnOnce(usize) -> i32>(&self, call: F) -> (b: bool)
        requires
            call.requires((self@,)),
        ensures
            exists|v: i32| call.ensures((self@,), v) && b == (v != 0),
    {
        let v = call(self.handle);
        v != 0
    }

    /// Sets whether active sensing bytes are left out: `call` performs
    /// `snd_rawmidi_params_set_no_active_sensing(rawmidi, self, flag)`, where
    /// the flag is 1 for true and 0 for false, and answers its return code.
    pub fn set_no_active_sensing<F: FnOnce(usize, usize, i32) -> i32>(
        &mut self,
        rawmidi: &Rawmidi,
        val: bool,
        call: F,
    ) -> (r: Result<(), Error>)
        requires
            call.requires((rawmidi@, old(self)@, flag_value(val))),
        ensures
            final(self)@ == old(self)@,
            exists|code: i32|
                call.ensures((rawmidi@, old(self)@, flag_value(val)), code) && r == checked_unit(
                    "snd_rawmidi_params_set_no_active_sensing",
                    code as int,
                ),
    {
        let flag: i32 = if val {
            1
        } else {
            0
        };
        let code = call(rawmidi.handle(), self.handle, flag);
        check_unit("snd_rawmidi_params_set_no_active_sensing", code)
    }

    /// The read mode: `call` performs `snd_rawmidi_params_get_read_mode`; a
    /// value that no read mode has is an "unsupported" error.
    pub fn get_read_mode<F: FnOnce(usize) -> u32>(&self, call: F) -> (r: Result<ReadMode, Error>)
        requires
            call.requires((self@,)),
        ensures
            exists|v: u32|
                {
                    &&& call.ensures((self@,), v)
                    &&& (r is Ok <==> read_mode_from_value(v as i32) is Some)
                    &&& (r matches Ok(m) ==> read_mode_from_value(v as i32) == Some(m))
                    &&& (r matches Err(e) ==> e.func == "snd_rawmidi_params_get_read_mode"
                        && e.errno > 0)
                },
    {
        let v = call(self.handle);
        ReadMode::from_c_int(v as i32, "snd_rawmidi_params_get_read_mode")
    }

    /// Sets the read mode: `call` performs
    /// `snd_rawmidi_params_set_read_mode(rawmidi, self, value)` with the C value
    /// of `val`, and answers its return code.
    pub fn set_read_mode<F: FnOnce(usize, usize, u32) -> i32>(
        &mut self,
        rawmidi: &Rawmidi,
        val: ReadMode,
        call: F,
    ) -> (r: Result<(), Error>)
        requires
            call.requires((rawmidi@, old(self)@, read_mode_value(val) as u32)),
        ensures
            final(self)@ == old(self)@,
            exists|code: i32|
                call.ensures((rawmidi@, old(self)@, read_mode_value(val) as u32), code) && r
                    == checked_unit("snd_rawmidi_params_set_read_mode", code as int),
    {
        let value = val.to_c_int();
        let code = call(rawmidi.handle(), self.handle, value as u32);
        check_unit("snd_rawmidi_params_set_read_mode", code)
    }

    /// The clock that stamps input: `call` performs
    /// `snd_rawmidi_params_get_clock_type`; a value that no clock has is an
    /// "unsupported" error.
    pub fn get_clock_type<F: FnOnce(usize) -> u32>(&self, call: F) -> (r: Result<Clock, Error>)
        requires
            call.requires((self@,)),
        ensures
            exists|v: u32|
                {
                    &&& call.ensures((self@,), v)
                    &&& (r is Ok <==> clock_from_value(v as i32) is Some)
                    &&& (r matches Ok(k) ==> clock_from_value(v as i32) == Some(k))
                    &&& (r matches Err(e) ==> e.func == "snd_rawmidi_params_get_clock_type"
                        && e.errno > 0)
                },
    {
        let v = call(self.handle);
        Clock::from_c_int(v as i32, "snd_rawmidi_params_get_clock_type")
    }

    /// Sets the clock that stamps input: `call` performs
    /// `snd_rawmidi_params_set_clock_type(rawmidi, self, value)` with the C
    /// value of `val`, and answers its return code.
    pub fn set_clock_type<F: FnOnce(usize, usize, u32) -> i32>(
        &mut self,
        rawmidi: &Rawmidi,
        val: Clock,
        call: F,
    ) -> (r: Result<(), Error>)
        requires
            call.requires((rawmidi@, old(self)@, clock_value(val) as u32)),
        ensures
            final(self)@ == old(self)@,
            exists|code: i32|
                call.ensures((rawmidi@, old(self)@, clock_value(val) as u32), code) && r
                    == checked_unit("snd_rawmidi_params_set_clock_type", code as int),
    {
        let value = val.to_c_int();
        let code = call(rawmidi.handle(), self.handle, value as u32);
        check_unit("snd_rawmidi_params_set_clock_type", code)
    }
}

} // verus!

verus! {

/// A `snd_rawmidi_status_t`: the status of a rawmidi stream, kept by ALSA
/// behind `handle`.
#[derive(Debug)]
pub struct Status {
    handle: usize,
}

impl View for Status {
    type V = usize;

    closed spec fn view(&self) -> usize {
        self.handle
    }
}

/// A status object or error, with the object taken by its handle.
pub open spec fn status_view(r: Result<Status, Error>) -> Result<usize, Error> {
    match r {
        Ok(p) => Ok(p@),
        Err(e) => Err(e),
    }
}

impl Status {
    /// Allocates a status object: `alloc` performs `snd_rawmidi_status_malloc`
    /// and answers its return code and the address it wrote.
    pub fn new<F: FnOnce() -> (i32, usize)>(alloc: F) -> (r: Result<Status, Error>)
        requires
            alloc.requires(()),
        ensures
            exists|out: (i32, usize)|
                alloc.ensures((), out) && status_view(r) == allocated(
                    "snd_rawmidi_status_malloc",
                    out,
                ),
    {
        let out = alloc();
        let r = match from_code("snd_rawmidi_status_malloc", out.0) {
            Ok(_) => Ok(Status { handle: out.1 }),
            Err(e) => Err(e),
        };
        assert(status_view(r) == allocated("snd_rawmidi_status_malloc", out));
        r
    }

    /// The address behind which ALSA keeps this object.
    pub fn handle(&self) -> (h: usize)
        ensures
            h == self@,
    {
        self.handle
    }

    /// The status object that ALSA keeps behind `handle`.
    pub(crate) fn from_handle(handle: usize) -> (s: Status)
        ensures
            s@ == handle,
    {
        Status { handle }
    }

    /// The number of bytes ready: `call` performs `snd_rawmidi_status_get_avail`.
    pub fn get_avail<F: FnOnce(usize) -> usize>(&self, call: F) -> (n: usize)
        requires
            call.requires((self@,)),
        ensures
            call.ensures((self@,), n),
    {
        call(self.handle)
    }

    /// The number of overruns: `call` performs `snd_rawmidi_status_get_xruns`.
    pub fn get_xruns<F: FnOnce(usize) -> usize>(&self, call: F) -> (n: usize)
        requires
            call.requires((self@,)),
        ensures
            call.ensures((self@,), n),
    {
        call(self.handle)
    }
}

} // verus!
