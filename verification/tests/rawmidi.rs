use rawmidi::{
    check_unit, direction_of, from_code, from_const, from_size, invalid_str, stream_of, unsupported,
    Clock, Direction, Error, Found, Info, Iter, Params, PollFlags, Rawmidi, ReadMode, Status, Step,
    Timestamp, INVALID_STRING, NONBLOCK, STREAM_INPUT, STREAM_OUTPUT,
};
use std::cell::RefCell;
use std::collections::HashMap;

fn open_playback(handle: usize) -> Rawmidi {
    Rawmidi::open(Direction::Playback, false, |_i: bool, _o: bool, _m: i32| (0, handle)).unwrap()
}

fn params_at(handle: usize) -> Params {
    Params::new(|| (0, handle)).unwrap()
}

// A card as ALSA would show it: each device with its capture and playback
// subdevice counts, and the names of the subdevices.
struct MockCard {
    devices: Vec<(i32, u32, u32)>,
    infos: RefCell<HashMap<usize, (u32, u32, u32)>>,
    next_handle: RefCell<usize>,
}

impl MockCard {
    fn new(devices: Vec<(i32, u32, u32)>) -> MockCard {
        MockCard { devices, infos: RefCell::new(HashMap::new()), next_handle: RefCell::new(0x100) }
    }

    fn next_device(&self, device: i32) -> i32 {
        for &(d, _, _) in &self.devices {
            if d > device {
                return d;
            }
        }
        -1
    }

    fn counts(&self, device: i32) -> Option<(u32, u32)> {
        self.devices.iter().find(|x| x.0 == device).map(|x| (x.1, x.2))
    }

    fn lookup(&self, device: i32, sub: i32, dir: Direction) -> Result<Info, Error> {
        Info::from_iter(
            device,
            sub,
            dir,
            || {
                let mut h = self.next_handle.borrow_mut();
                *h += 1;
                (0, *h)
            },
            |h: usize, d: u32, s: u32, sub: u32| {
                match self.counts(d as i32) {
                    Some(_) => {
                        self.infos.borrow_mut().insert(h, (d, s, sub));
                        0
                    }
                    None => -19,
                }
            },
            |_h: usize| {},
        )
    }

    fn subdevices_count(&self, info: &Info) -> u32 {
        let (d, s, _) = self.infos.borrow()[&info.handle()];
        let (i, o) = self.counts(d as i32).unwrap();
        if s == STREAM_INPUT {
            i
        } else {
            o
        }
    }

    // Runs the iterator over this card, as the caller of `Iter` does.
    fn enumerate(&self) -> Vec<Result<Info, Error>> {
        let mut it = Iter::new();
        let mut items = Vec::new();
        loop {
            match it.next() {
                Step::Query { device, subdevice, dir } => {
                    items.push(self.lookup(device, subdevice, dir));
                }
                Step::NextDevice { device } => {
                    let next = self.next_device(device);
                    match it.device_found(0, next) {
                        Found::Finished => return items,
                        Found::Failed(e) => items.push(Err(e)),
                        Found::Count { device } => {
                            let look = |d: i32, s: i32, dir: Direction| {
                                self.lookup(d, s, dir).map(|info| self.subdevices_count(&info))
                            };
                            let counts = Info::subdev_count(device, &look, &look);
                            if let Some(e) = it.subdevices_counted(counts) {
                                items.push(Err(e));
                            }
                        }
                    }
                }
            }
        }
    }

    fn describe(&self, info: &Info) -> (Direction, i32, i32) {
        let (d, s, sub) = self.infos.borrow()[&info.handle()];
        (
            info.get_stream(|_h: usize| s),
            info.get_device(|_h: usize| d),
            info.get_subdevice(|_h: usize| sub),
        )
    }
}

#[test]
fn print_rawmidis() {
    let card = MockCard::new(vec![(0, 1, 2), (2, 0, 1)]);
    let card_index = 0;
    let card_name = "Mock MIDI card";
    for b in card.enumerate().into_iter().map(|b| b.unwrap()) {
        let (stream, device, subdevice) = card.describe(&b);
        let name = b
            .get_subdevice_name(|_h: usize| Some(format!("Port {}", subdevice).into_bytes()))
            .unwrap();
        println!(
            "Rawmidi {:?} (hw:{},{},{}) {} - {}",
            stream, card_index, device, subdevice, card_name, name
        );
    }
}

#[test]
fn enumeration_yields_capture_then_playback_per_device() {
    let card = MockCard::new(vec![(0, 1, 2), (3, 2, 0), (4, 0, 0), (7, 0, 1)]);
    let seen: Vec<(Direction, i32, i32)> =
        card.enumerate().into_iter().map(|r| card.describe(&r.unwrap())).collect();
    assert_eq!(
        seen,
        vec![
            (Direction::Capture, 0, 0),
            (Direction::Playback, 0, 0),
            (Direction::Playback, 0, 1),
            (Direction::Capture, 3, 0),
            (Direction::Capture, 3, 1),
            (Direction::Playback, 7, 0),
        ]
    );
}

#[test]
fn enumeration_of_card_without_devices_is_empty() {
    let card = MockCard::new(vec![]);
    assert!(card.enumerate().is_empty());
}

#[test]
fn fresh_iterator_asks_for_first_device() {
    let mut it = Iter::new();
    assert_eq!(it.next(), Step::NextDevice { device: -1 });
    assert_eq!(it.next(), Step::NextDevice { device: -1 });
}

#[test]
fn iterator_steps_through_counted_device() {
    let mut it = Iter::new();
    assert_eq!(it.next(), Step::NextDevice { device: -1 });
    assert_eq!(it.device_found(0, 5), Found::Count { device: 5 });
    assert_eq!(it.subdevices_counted(Ok((1, 2))), None);
    assert_eq!(it.next(), Step::Query { device: 5, subdevice: 0, dir: Direction::Capture });
    assert_eq!(it.next(), Step::Query { device: 5, subdevice: 1, dir: Direction::Capture });
    assert_eq!(it.next(), Step::Query { device: 5, subdevice: 0, dir: Direction::Playback });
    assert_eq!(it.next(), Step::NextDevice { device: 5 });
}

#[test]
fn iterator_ends_on_enotty() {
    let mut it = Iter::new();
    it.next();
    assert_eq!(it.device_found(-25, -1), Found::Finished);
}

#[test]
fn iterator_ends_on_device_minus_one() {
    let mut it = Iter::new();
    it.next();
    assert_eq!(it.device_found(0, -1), Found::Finished);
}

#[test]
fn iterator_hands_on_other_query_errors() {
    let mut it = Iter::new();
    it.next();
    let found = it.device_found(-5, 2);
    assert_eq!(
        found,
        Found::Failed(Error { func: "snd_ctl_rawmidi_next_device", errno: 5 })
    );
    // The device written by ALSA is kept; the next step asks again after it.
    assert_eq!(it.next(), Step::NextDevice { device: 2 });
}

#[test]
fn iterator_keeps_old_counts_when_counting_fails() {
    let mut it = Iter::new();
    it.next();
    it.device_found(0, 0);
    it.subdevices_counted(Ok((0, 1)));
    assert_eq!(it.next(), Step::Query { device: 0, subdevice: 0, dir: Direction::Capture });
    assert_eq!(it.next(), Step::NextDevice { device: 0 });
    assert_eq!(it.device_found(0, 1), Found::Count { device: 1 });
    let e = Error { func: "snd_ctl_rawmidi_info", errno: 12 };
    assert_eq!(it.subdevices_counted(Err(e)), Some(e));
    // The counts of device 0 still stand, now for device 1.
    assert_eq!(it.next(), Step::Query { device: 1, subdevice: 0, dir: Direction::Capture });
}

#[test]
fn subdev_count_gives_playback_then_capture() {
    let r = Info::subdev_count(
        4,
        |_d: i32, _s: i32, dir: Direction| {
            assert_eq!(dir, Direction::Capture);
            Ok(3)
        },
        |_d: i32, _s: i32, dir: Direction| {
            assert_eq!(dir, Direction::Playback);
            Ok(7)
        },
    );
    assert_eq!(r, Ok((7, 3)));
}

#[test]
fn subdev_count_stops_at_capture_error() {
    let calls = RefCell::new(Vec::new());
    let e = Error { func: "snd_ctl_rawmidi_info", errno: 2 };
    let r = Info::subdev_count(
        4,
        |d: i32, s: i32, dir: Direction| {
            calls.borrow_mut().push((d, s, dir));
            Err(e)
        },
        |_d: i32, _s: i32, _dir: Direction| panic!("no playback lookup after a capture failure"),
    );
    assert_eq!(r, Err(e));
    assert_eq!(*calls.borrow(), vec![(4, 0, Direction::Capture)]);
}

#[test]
fn subdev_count_playback_error() {
    let e = Error { func: "snd_ctl_rawmidi_info", errno: 6 };
    let r = Info::subdev_count(1, |_d: i32, _s: i32, _dir: Direction| Ok(3), |_d: i32, _s: i32, _dir: Direction| Err(e));
    assert_eq!(r, Err(e));
}

#[test]
fn from_iter_hands_device_stream_and_subdevice() {
    let seen = RefCell::new(None);
    let info = Info::from_iter(
        3,
        2,
        Direction::Playback,
        || (0, 0x40),
        |h: usize, d: u32, s: u32, sub: u32| {
            *seen.borrow_mut() = Some((h, d, s, sub));
            0
        },
        |_h: usize| panic!("nothing to release"),
    )
    .unwrap();
    assert_eq!(info.handle(), 0x40);
    assert_eq!(*seen.borrow(), Some((0x40, 3, STREAM_OUTPUT, 2)));
}

#[test]
fn from_iter_releases_on_query_failure() {
    let freed = RefCell::new(None);
    let r = Info::from_iter(
        1,
        0,
        Direction::Capture,
        || (0, 0x50),
        |_h: usize, _d: u32, s: u32, _sub: u32| {
            assert_eq!(s, STREAM_INPUT);
            -19
        },
        |h: usize| *freed.borrow_mut() = Some(h),
    );
    assert_eq!(r.map(|i| i.handle()), Err(Error { func: "snd_ctl_rawmidi_info", errno: 19 }));
    assert_eq!(*freed.borrow(), Some(0x50));
}

#[test]
fn from_iter_allocation_failure() {
    let r = Info::from_iter(
        1,
        0,
        Direction::Capture,
        || (-12, 0),
        |_h: usize, _d: u32, _s: u32, _sub: u32| panic!("no query after a failed allocation"),
        |_h: usize| panic!("nothing to release"),
    );
    assert_eq!(r.map(|i| i.handle()), Err(Error { func: "snd_rawmidi_info_malloc", errno: 12 }));
}

#[test]
fn from_code_checks_sign() {
    assert_eq!(from_code("f", 0), Ok(0));
    assert_eq!(from_code("f", 17), Ok(17));
    assert_eq!(from_code("f", -22), Err(Error { func: "f", errno: 22 }));
    assert_eq!(from_code("f", i32::MIN), Err(Error { func: "f", errno: i32::MIN }));
}

#[test]
fn from_size_checks_sign() {
    assert_eq!(from_size("g", 5), Ok(5));
    assert_eq!(from_size("g", -11), Err(Error { func: "g", errno: 11 }));
}

#[test]
fn check_unit_checks_sign() {
    assert_eq!(check_unit("h", 3), Ok(()));
    assert_eq!(check_unit("h", -1), Err(Error { func: "h", errno: 1 }));
}

#[test]
fn error_accessors() {
    let e = Error::new("snd_rawmidi_drain", 32);
    assert_eq!(e.func(), "snd_rawmidi_drain");
    assert_eq!(e.errno(), 32);
}

#[test]
fn unsupported_uses_enotsup() {
    let e = unsupported("x");
    assert_eq!(e.func, "x");
    assert_eq!(e.errno, libc::ENOTSUP);
}

#[test]
fn invalid_string_error() {
    assert_eq!(invalid_str("y"), Error { func: "y", errno: INVALID_STRING });
}

#[test]
fn from_const_reads_utf8() {
    assert_eq!(from_const("n", Some(b"Midi Through".to_vec())), Ok("Midi Through".to_string()));
    assert_eq!(from_const("n", Some("Überall".as_bytes().to_vec())), Ok("Überall".to_string()));
    assert_eq!(from_const("n", Some(Vec::new())), Ok(String::new()));
}

#[test]
fn from_const_rejects_null_and_bad_utf8() {
    assert_eq!(from_const("n", None), Err(Error { func: "n", errno: INVALID_STRING }));
    assert_eq!(
        from_const("n", Some(vec![0x66, 0xff, 0x66])),
        Err(Error { func: "n", errno: INVALID_STRING })
    );
}

#[test]
fn direction_helpers() {
    assert_eq!(Direction::input(), Direction::Capture);
    assert_eq!(Direction::output(), Direction::Playback);
}

#[test]
fn stream_values() {
    assert_eq!(stream_of(Direction::Playback), 0);
    assert_eq!(stream_of(Direction::Capture), 1);
    assert_eq!(direction_of(0), Direction::Playback);
    assert_eq!(direction_of(1), Direction::Capture);
    assert_eq!(direction_of(7), Direction::Capture);
    for d in [Direction::Playback, Direction::Capture] {
        assert_eq!(direction_of(stream_of(d)), d);
    }
}

#[test]
fn read_mode_values() {
    assert_eq!(ReadMode::all(), vec![ReadMode::Standard, ReadMode::Timestamp]);
    assert_eq!(ReadMode::Standard.to_c_int(), 0);
    assert_eq!(ReadMode::Timestamp.to_c_int(), 1);
    for m in ReadMode::all() {
        assert_eq!(ReadMode::from_c_int(m.to_c_int(), "f"), Ok(m));
    }
    let e = ReadMode::from_c_int(2, "snd_rawmidi_params_get_read_mode").unwrap_err();
    assert_eq!(e.func, "snd_rawmidi_params_get_read_mode");
    assert_eq!(e.errno, libc::ENOTSUP);
    assert!(ReadMode::from_c_int(-1, "f").is_err());
}

#[test]
fn clock_values() {
    assert_eq!(
        Clock::all(),
        vec![Clock::NoClock, Clock::Realtime, Clock::Monotonic, Clock::MonotonicRaw]
    );
    assert_eq!(Clock::MonotonicRaw.to_c_int(), 3);
    assert_eq!(Clock::NoClock.to_c_int(), 0);
    for k in Clock::all() {
        assert_eq!(Clock::from_c_int(k.to_c_int(), "f"), Ok(k));
    }
    assert_eq!(Clock::from_c_int(2, "f"), Ok(Clock::Monotonic));
    assert_eq!(Clock::from_c_int(4, "f").unwrap_err().errno, libc::ENOTSUP);
}

#[test]
fn params_new_and_failure() {
    assert_eq!(params_at(0x10).handle(), 0x10);
    assert_eq!(
        Params::new(|| (-12, 0)).map(|p| p.handle()),
        Err(Error { func: "snd_rawmidi_params_malloc", errno: 12 })
    );
}

#[test]
fn params_copy_hands_both_handles() {
    let mut dst = params_at(0x20);
    let src = params_at(0x30);
    let mut seen = None;
    dst.copy(&src, |d: usize, s: usize| seen = Some((d, s)));
    assert_eq!(seen, Some((0x20, 0x30)));
}

#[test]
fn params_getters() {
    let p = params_at(0x21);
    assert_eq!(p.get_buffer_size(|h: usize| h + 1), 0x22);
    assert_eq!(p.get_avail_min(|_h: usize| 1), 1);
    assert!(!p.get_no_active_sensing(|_h: usize| 0));
    assert!(p.get_no_active_sensing(|_h: usize| 1));
    assert!(p.get_no_active_sensing(|_h: usize| -3));
    assert_eq!(p.get_read_mode(|_h: usize| 1), Ok(ReadMode::Timestamp));
    assert!(p.get_read_mode(|_h: usize| 9).is_err());
    assert_eq!(p.get_clock_type(|_h: usize| 1), Ok(Clock::Realtime));
    assert_eq!(
        p.get_clock_type(|_h: usize| 5).unwrap_err().func,
        "snd_rawmidi_params_get_clock_type"
    );
}

#[test]
fn params_set_avail_min() {
    let r = open_playback(0x90);
    let mut p = params_at(0x91);
    let mut seen = None;
    assert_eq!(p.set_avail_min(&r, 16, |a: usize, b: usize, v: usize| { seen = Some((a, b, v)); 0 }), Ok(()));
    assert_eq!(seen, Some((0x90, 0x91, 16)));
    assert_eq!(
        p.set_avail_min(&r, 16, |_a: usize, _b: usize, _v: usize| -22),
        Err(Error { func: "snd_rawmidi_params_set_avail_min", errno: 22 })
    );
}

#[test]
fn params_set_no_active_sensing_hands_flag() {
    let r = open_playback(0x90);
    let mut p = params_at(0x91);
    let mut seen = Vec::new();
    p.set_no_active_sensing(&r, true, |_a: usize, _b: usize, v: i32| { seen.push(v); 0 }).unwrap();
    p.set_no_active_sensing(&r, false, |_a: usize, _b: usize, v: i32| { seen.push(v); 0 }).unwrap();
    assert_eq!(seen, vec![1, 0]);
    assert_eq!(
        p.set_no_active_sensing(&r, true, |_a: usize, _b: usize, _v: i32| -1),
        Err(Error { func: "snd_rawmidi_params_set_no_active_sensing", errno: 1 })
    );
}

#[test]
fn params_set_read_mode_and_clock_hand_c_values() {
    let r = open_playback(0x90);
    let mut p = params_at(0x91);
    let mut seen = Vec::new();
    p.set_read_mode(&r, ReadMode::Timestamp, |_a: usize, _b: usize, v: u32| { seen.push(v); 0 }).unwrap();
    p.set_clock_type(&r, Clock::Monotonic, |_a: usize, _b: usize, v: u32| { seen.push(v); 0 }).unwrap();
    assert_eq!(seen, vec![1, 2]);
    assert_eq!(
        p.set_read_mode(&r, ReadMode::Standard, |_a: usize, _b: usize, _v: u32| -95),
        Err(Error { func: "snd_rawmidi_params_set_read_mode", errno: 95 })
    );
    assert_eq!(
        p.set_clock_type(&r, Clock::NoClock, |_a: usize, _b: usize, _v: u32| -22),
        Err(Error { func: "snd_rawmidi_params_set_clock_type", errno: 22 })
    );
}

#[test]
fn status_new_and_getters() {
    let s = Status::new(|| (0, 0x77)).unwrap();
    assert_eq!(s.handle(), 0x77);
    assert_eq!(s.get_avail(|h: usize| h - 0x70), 7);
    assert_eq!(s.get_xruns(|_h: usize| 2), 2);
    assert_eq!(
        Status::new(|| (-12, 0)).map(|s| s.handle()),
        Err(Error { func: "snd_rawmidi_status_malloc", errno: 12 })
    );
}

#[test]
fn info_new_and_getters() {
    let i = Info::new(|| (0, 0x55)).unwrap();
    assert_eq!(i.handle(), 0x55);
    assert_eq!(i.get_device(|_h: usize| 4), 4);
    assert_eq!(i.get_subdevice(|_h: usize| u32::MAX), -1);
    assert_eq!(i.get_stream(|_h: usize| 0), Direction::Playback);
    assert_eq!(i.get_stream(|_h: usize| 1), Direction::Capture);
    assert_eq!(i.get_id(|_h: usize| Some(b"MIDI 0".to_vec())), Ok("MIDI 0".to_string()));
    assert_eq!(
        i.get_id(|_h: usize| None),
        Err(Error { func: "snd_rawmidi_info_get_id", errno: INVALID_STRING })
    );
    assert_eq!(
        i.get_subdevice_name(|_h: usize| Some(vec![0xc3])),
        Err(Error { func: "snd_rawmidi_info_get_subdevice_name", errno: INVALID_STRING })
    );
    assert_eq!(
        Info::new(|| (-12, 0)).map(|i| i.handle()),
        Err(Error { func: "snd_rawmidi_info_malloc", errno: 12 })
    );
}

#[test]
fn open_gives_slot_of_direction_and_mode() {
    let mut seen = Vec::new();
    let r = Rawmidi::open(Direction::Capture, true, |i: bool, o: bool, m: i32| {
        seen.push((i, o, m));
        (0, 0xa0)
    })
    .unwrap();
    assert_eq!(r.handle(), 0xa0);
    Rawmidi::open(Direction::Playback, false, |i: bool, o: bool, m: i32| {
        seen.push((i, o, m));
        (0, 0xa1)
    })
    .unwrap();
    assert_eq!(seen, vec![(true, false, NONBLOCK), (false, true, 0)]);
    assert_eq!(NONBLOCK, 2);
}

#[test]
fn open_failure() {
    let r = Rawmidi::open(Direction::Playback, false, |_i: bool, _o: bool, _m: i32| (-2, 0));
    assert_eq!(r.map(|r| r.handle()), Err(Error { func: "snd_rawmidi_open", errno: 2 }));
}

#[test]
fn new_hands_name() {
    let mut seen = None;
    let r = Rawmidi::new("hw:1,0,0", Direction::Capture, false, |n: &str, i: bool, o: bool, m: i32| {
        seen = Some((n.to_string(), i, o, m));
        (0, 0xb0)
    })
    .unwrap();
    assert_eq!(r.handle(), 0xb0);
    assert_eq!(seen, Some(("hw:1,0,0".to_string(), true, false, 0)));
}

#[test]
fn rawmidi_info_status_and_params_current() {
    let r = open_playback(0xc0);
    let i = r.info(|| (0, 0xc1), |a: usize, b: usize| { assert_eq!((a, b), (0xc0, 0xc1)); 0 }, |_h: usize| panic!()).unwrap();
    assert_eq!(i.handle(), 0xc1);
    let freed = RefCell::new(Vec::new());
    let e = r.status(|| (0, 0xc2), |_a: usize, _b: usize| -5, |h: usize| freed.borrow_mut().push(h));
    assert_eq!(e.map(|s| s.handle()), Err(Error { func: "snd_rawmidi_status", errno: 5 }));
    let p = r.params_current(|| (0, 0xc3), |_a: usize, _b: usize| 0, |_h: usize| panic!()).unwrap();
    assert_eq!(p.handle(), 0xc3);
    let e = r.params_current(|| (0, 0xc4), |_a: usize, _b: usize| -16, |h: usize| freed.borrow_mut().push(h));
    assert_eq!(e.map(|p| p.handle()), Err(Error { func: "snd_rawmidi_params_current", errno: 16 }));
    let e = r.info(|| (-12, 0), |_a: usize, _b: usize| panic!(), |_h: usize| panic!());
    assert_eq!(e.map(|i| i.handle()), Err(Error { func: "snd_rawmidi_info_malloc", errno: 12 }));
    assert_eq!(*freed.borrow(), vec![0xc2, 0xc4]);
}

#[test]
fn rawmidi_drop_drain_params() {
    let mut r = open_playback(0xd0);
    assert_eq!(r.drop(|h: usize| { assert_eq!(h, 0xd0); 0 }), Ok(()));
    assert_eq!(r.drop(|_h: usize| -77), Err(Error { func: "snd_rawmidi_drop", errno: 77 }));
    assert_eq!(r.drain(|_h: usize| 0), Ok(()));
    assert_eq!(r.drain(|_h: usize| -4), Err(Error { func: "snd_rawmidi_drain", errno: 4 }));
    let p = params_at(0xd1);
    assert_eq!(r.params(&p, |a: usize, b: usize| { assert_eq!((a, b), (0xd0, 0xd1)); 0 }), Ok(()));
    assert_eq!(r.params(&p, |_a: usize, _b: usize| -22), Err(Error { func: "snd_rawmidi_params", errno: 22 }));
}

#[test]
fn rawmidi_name() {
    let r = open_playback(0xd0);
    assert_eq!(r.name(|_h: usize| Some(b"Virtual RawMIDI".to_vec())), Ok("Virtual RawMIDI".to_string()));
    assert_eq!(r.name(|_h: usize| None), Err(Error { func: "snd_rawmidi_name", errno: INVALID_STRING }));
}

#[test]
fn rawmidi_read_write_tread() {
    let r = open_playback(0xe0);
    assert_eq!(r.read(64, |h: usize, n: usize| { assert_eq!((h, n), (0xe0, 64)); 3 }), Ok(3));
    assert_eq!(r.read(64, |_h: usize, _n: usize| -11), Err(Error { func: "snd_rawmidi_read", errno: 11 }));
    assert_eq!(r.write(3, |_h: usize, n: usize| n as isize), Ok(3));
    assert_eq!(r.write(3, |_h: usize, _n: usize| -32), Err(Error { func: "snd_rawmidi_write", errno: 32 }));
    let t = r.tread(8, |_h: usize, ts: Timestamp, _n: usize| {
        assert_eq!(ts, Timestamp { tv_sec: 0, tv_nsec: 0 });
        (2, Timestamp { tv_sec: 5, tv_nsec: 6 })
    });
    assert_eq!(t, Ok((Timestamp { tv_sec: 5, tv_nsec: 6 }, 2)));
    let t = r.tread(8, |_h: usize, ts: Timestamp, _n: usize| (-11, ts));
    assert_eq!(t, Err(Error { func: "snd_rawmidi_tread", errno: 11 }));
}

#[test]
fn io_read_write_flush() {
    let r = open_playback(0xe1);
    let mut io = r.io();
    assert_eq!(io.read(4, |h: usize, n: usize| { assert_eq!((h, n), (0xe1, 4)); 4 }), Ok(4));
    assert_eq!(io.read(4, |_h: usize, _n: usize| -11), Err(-11));
    assert_eq!(io.write(2, |_h: usize, _n: usize| 2), Ok(2));
    assert_eq!(io.write(2, |_h: usize, _n: usize| -32), Err(-32));
    assert_eq!(io.flush(), Ok(()));
}

#[test]
fn poll_descriptors() {
    let r = open_playback(0xf0);
    assert_eq!(r.count(|_h: usize| 1), 1);
    assert_eq!(r.fill(2, |h: usize, n: u32| { assert_eq!((h, n), (0xf0, 2)); 1 }), Ok(1));
    assert_eq!(
        r.fill(2, |_h: usize, _n: u32| -9),
        Err(Error { func: "snd_rawmidi_poll_descriptors", errno: 9 })
    );
    let f = r.revents(1, |_h: usize, _n: u32| (0, 0x0101)).unwrap();
    assert_eq!(f.bits(), 0x01);
    assert_eq!(
        r.revents(1, |_h: usize, _n: u32| (-9, 0)).map(|f| f.bits()),
        Err(Error { func: "snd_rawmidi_poll_descriptors_revents", errno: 9 })
    );
}

#[test]
fn poll_flags_truncate() {
    assert_eq!(PollFlags::all().bits(), 0x3f);
    assert_eq!(
        PollFlags::all().bits(),
        libc::POLLIN | libc::POLLPRI | libc::POLLOUT | libc::POLLERR | libc::POLLHUP | libc::POLLNVAL
    );
    assert_eq!(PollFlags::from_bits_truncate(0x7fff).bits(), 0x3f);
    assert_eq!(PollFlags::from_bits_truncate(0x05).bits(), 0x05);
    assert_eq!(PollFlags::from_bits_truncate(-1).bits(), 0x3f);
    let once = PollFlags::from_bits_truncate(0x1234).bits();
    assert_eq!(PollFlags::from_bits_truncate(once).bits(), once);
}

#[test]
fn close_only_when_open() {
    let mut closed = Vec::new();
    open_playback(0x99).close(|h: usize| { closed.push(h); 0 });
    Rawmidi::open(Direction::Playback, false, |_i: bool, _o: bool, _m: i32| (0, 0))
        .unwrap()
        .close(|h: usize| { closed.push(h); 0 });
    assert_eq!(closed, vec![0x99]);
}

#[test]
fn next_overflows_only_past_i32_max() {
    let mut it = Iter::new();
    assert!(!it.next_overflows());
    it.next();
    it.device_found(0, 0);
    it.subdevices_counted(Ok((i32::MAX, 1)));
    assert!(!it.next_overflows());
    assert_eq!(it.next(), Step::Query { device: 0, subdevice: 0, dir: Direction::Capture });
    assert!(!it.next_overflows());
}

#[test]
fn subdev_count_asks_capture_first() {
    let calls = RefCell::new(Vec::new());
    let look = |d: i32, s: i32, dir: Direction| {
        calls.borrow_mut().push((d, s, dir));
        Ok(1)
    };
    let r = Info::subdev_count(2, &look, &look);
    assert_eq!(r, Ok((1, 1)));
    assert_eq!(*calls.borrow(), vec![(2, 0, Direction::Capture), (2, 0, Direction::Playback)]);
}

#[test]
fn info_query_after_failed_allocation_is_not_made() {
    let r = open_playback(0x31);
    let e = r.status(|| (-12, 0), |_a: usize, _b: usize| panic!("no query"), |_h: usize| panic!("no free"));
    assert_eq!(e.map(|s| s.handle()), Err(Error { func: "snd_rawmidi_status_malloc", errno: 12 }));
    let e = r.params_current(|| (-12, 0), |_a: usize, _b: usize| panic!("no query"), |_h: usize| panic!("no free"));
    assert_eq!(e.map(|p| p.handle()), Err(Error { func: "snd_rawmidi_params_malloc", errno: 12 }));
}
