use vstd::prelude::*;
use crate::enums::{Direction, direction_of, spec_direction_of, spec_stream_of, stream_of};
use crate::error::{Error, from_code, from_const, spec_from_const, string_view};
use crate::object::{allocated, alloc_then_query, filled};

verus! {

/// A `snd_rawmidi_info_t`: what ALSA tells of a rawmidi device and subdevice,
/// kept behind `handle`.
#[derive(Debug)]
pub struct Info {
    handle: usize,
}

impl View for Info {
    type V = usize;

    closed spec fn view(&self) -> usize {
        self.handle
    }
}

/// An info object or error, with the object taken by its handle.
pub open spec fn info_view(r: Result<Info, Error>) -> Result<usize, Error> {
    match r {
        Ok(p) => Ok(p@),
        Err(e) => Err(e),
    }
}

/// What the subdevice counts of a device are, given the answers of the
/// capture and the playback lookups: `(playback, capture)`, or the first error.
pub open spec fn spec_subdev_count(
    capture: Result<u32, Error>,
    playback: Result<u32, Error>,
) -> Result<(i32, i32), Error> {
    match capture {
        Err(e) => Err(e),
        Ok(i) => match playback {
            Err(e) => Err(e),
            Ok(o) => Ok((o as i32, i as i32)),
        },
    }
}

/// The counts come back as `(playback, capture)`, each the count that its
/// lookup answered; the capture error comes first, then the playback error.
pub proof fn lemma_subdev_count_order(
    capture: Result<u32, Error>,
    playback: Result<u32, Error>,
    i: u32,
    o: u32,
    e: Error,
)
    ensures
        spec_subdev_count(Ok(i), Ok(o)) == Ok::<(i32, i32), Error>((o as i32, i as i32)),
        spec_subdev_count(Err(e), playback) == Err::<(i32, i32), Error>(e),
        spec_subdev_count(Ok(i), Err(e)) == Err::<(i32, i32), Error>(e),
        spec_subdev_count(capture, playback) is Ok <==> capture is Ok && playback is Ok,
{
}

impl Info {
    /// Allocates an info object: `alloc` performs `snd_rawmidi_info_malloc`
    /// and answers its return code and the address it wrote.
    pub fn new<F: FnOnce() -> (i32, usize)>(alloc: F) -> (r: Result<Info, Error>)
        requires
            alloc.requires(()),
        ensures
            exists|out: (i32, usize)|
                alloc.ensures((), out) && info_view(r) == allocated("snd_rawmidi_info_malloc", out),
    {
        let out = alloc();
        let r = match from_code("snd_rawmidi_info_malloc", out.0) {
            Ok(_) => Ok(Info { handle: out.1 }),
            Err(e) => Err(e),
        };
        assert(info_view(r) == allocated("snd_rawmidi_info_malloc", out));
        r
    }

    /// The address behind which ALSA keeps this object.
    pub fn handle(&self) -> (h: usize)
        ensures
            h == self@,
    {
        self.handle
    }

    /// The info object that ALSA keeps behind `handle`.
    pub(crate) fn from_handle(handle: usize) -> (i: Info)
        ensures
            i@ == handle,
    {
        Info { handle }
    }

    /// Looks up subdevice `sub` of `device` in direction `dir`. `alloc`
    /// performs `snd_rawmidi_info_malloc`; `query` sets the device, the stream
    /// and the subdevice of the new object to the values handed to it and
    /// performs `snd_ctl_rawmidi_info` on it, answering its return code;
    /// `free` releases the object where the lookup failed.
    pub fn from_iter<A, Q, D>(
        device: i32,
        sub: i32,
        dir: Direction,
        alloc: A,
        query: Q,
        free: D,
    ) -> (r: Result<Info, Error>) where
        A: FnOnce() -> (i32, usize),
        Q: FnOnce(usize, u32, u32, u32) -> i32,
        D: FnOnce(usize),

        requires
            alloc.requires(()),
            forall|o: (i32, usize)| #[trigger] alloc.ensures((), o) && o.0 >= 0 ==> query.requires(
                (o.1, device as u32, spec_stream_of(dir), sub as u32),
            ),
            forall|h: usize, c: i32|
                #[trigger] query.ensures((h, device as u32, spec_stream_of(dir), sub as u32), c) && c
                    < 0 ==> free.requires((h,)),
        ensures
            exists|out: (i32, usize)|
                {
                    &&& alloc.ensures((), out)
                    &&& out.0 < 0 ==> info_view(r) == allocated("snd_rawmidi_info_malloc", out)
                    &&& out.0 >= 0 ==> exists|code: i32|
                        {
                            &&& query.ensures(
                                (out.1, device as u32, spec_stream_of(dir), sub as u32),
                                code,
                            )
                            &&& info_view(r) == filled("snd_ctl_rawmidi_info", out.1, code)
                            &&& code < 0 ==> free.ensures((out.1,), ())
                        }
                },
    {
        let d = device as u32;
        let stream = stream_of(dir);
        let s = sub as u32;
        let lookup = |h: usize| -> (c: i32)
            requires
                query.requires((h, d, stream, s)),
            ensures
                query.ensures((h, d, stream, s), c),
            { query(h, d, stream, s) };
        match alloc_then_query("snd_rawmidi_info_malloc", "snd_ctl_rawmidi_info", alloc, lookup, free) {
            Ok(h) => Ok(Info { handle: h }),
            Err(e) => Err(e),
        }
    }

    /// The subdevice counts of `device`, as `(playback, capture)`. `capture`
    /// and `playback` each look up subdevice 0 of the device in the direction
    /// handed to them and answer its subdevice count
    /// (`snd_rawmidi_info_get_subdevices_count`). Capture is looked up first,
    /// once; playback is looked up once, and only where capture succeeded.
    pub fn subdev_count<C, P>(device: i32, capture: C, playback: P) -> (r: Result<
        (i32, i32),
        Error,
    >) where
        C: FnOnce(i32, i32, Direction) -> Result<u32, Error>,
        P: FnOnce(i32, i32, Direction) -> Result<u32, Error>,

        requires
            capture.requires((device, 0i32, Direction::Capture)),
            forall|c: Result<u32, Error>|
                #[trigger] capture.ensures((device, 0i32, Direction::Capture), c) && c is Ok
                    ==> playback.requires((device, 0i32, Direction::Playback)),
        ensures
            exists|i: Result<u32, Error>|
                {
                    &&& capture.ensures((device, 0i32, Direction::Capture), i)
                    &&& i is Err ==> r == spec_subdev_count(i, Ok(0u32))
                    &&& i is Ok ==> exists|o: Result<u32, Error>|
                        {
                            &&& playback.ensures((device, 0i32, Direction::Playback), o)
                            &&& r == spec_subdev_count(i, o)
                        }
                },
    {
        let in_answer = capture(device, 0, Direction::Capture);
        let i = match in_answer {
            Err(e) => {
                assert(Err::<(i32, i32), Error>(e) == spec_subdev_count(in_answer, Ok(0u32)));
                return Err(e);
            },
            Ok(i) => i,
        };
        let out_answer = playback(device, 0, Direction::Playback);
        let r = match out_answer {
            Err(e) => Err(e),
            Ok(o) => Ok((o as i32, i as i32)),
        };
        assert(r == spec_subdev_count(in_answer, out_answer));
        r
    }

    /// The device number: `call` performs `snd_rawmidi_info_get_device`.
    pub fn get_device<F: FnOnce(usize) -> u32>(&self, call: F) -> (d: i32)
        requires
            call.requires((self@,)),
        ensures
            exists|v: u32| call.ensures((self@,), v) && d == v as i32,
    {
        let v = call(self.handle);
        v as i32
    }

    /// The subdevice number: `call` performs `snd_rawmidi_info_get_subdevice`.
    pub fn get_subdevice<F: FnOnce(usize) -> u32>(&self, call: F) -> (d: i32)
        requires
            call.requires((self@,)),
        ensures
            exists|v: u32| call.ensures((self@,), v) && d == v as i32,
    {
        let v = call(self.handle);
        v as i32
    }

    /// The direction of the stream: `call` performs `snd_rawmidi_info_get_stream`;
    /// output is playback, anything else capture.
    pub fn get_stream<F: FnOnce(usize) -> u32>(&self, call: F) -> (d: Direction)
        requires
            call.requires((self@,)),
        ensures
            exists|v: u32| call.ensures((self@,), v) && d == spec_direction_of(v),
    {
        let v = call(self.handle);
        direction_of(v)
    }

    /// The name of the subdevice: `call` performs
    /// `snd_rawmidi_info_get_subdevice_name` and answers the bytes of the C
    /// string, or `None` for a null pointer.
    pub fn get_subdevice_name<F: FnOnce(usize) -> Option<Vec<u8>>>(&self, call: F) -> (r: Result<
        String,
        Error,
    >)
        requires
            call.requires((self@,)),
        ensures
            exists|bytes: Option<Vec<u8>>|
                call.ensures((self@,), bytes) && string_view(r) == spec_from_const(
                    "snd_rawmidi_info_get_subdevice_name",
                    crate::error::bytes_view(bytes),
                ),
    {
        let bytes = call(self.handle);
        from_const("snd_rawmidi_info_get_subdevice_name", bytes)
    }

    /// The identifier of the device: `call` performs `snd_rawmidi_info_get_id`
    /// and answers the bytes of the C string, or `None` for a null pointer.
    pub fn get_id<F: FnOnce(usize) -> Option<Vec<u8>>>(&self, call: F) -> (r: Result<
        String,
        Error,
    >)
        requires
            call.requires((self@,)),
        ensures
            exists|bytes: Option<Vec<u8>>|
                call.ensures((self@,), bytes) && string_view(r) == spec_from_const(
                    "snd_rawmidi_info_get_id",
                    crate::error::bytes_view(bytes),
                ),
    {
        let bytes = call(self.handle);
        from_const("snd_rawmidi_info_get_id", bytes)
    }
}

} // verus!
