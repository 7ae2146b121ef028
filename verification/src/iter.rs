use vstd::prelude::*;
use crate::enums::Direction;
use crate::error::{Error, errno_of, from_code};

verus! {

/// What the iterator asks its caller to do next.
#[derive(Debug, Clone, Copy, PartialEq, Eq)]
pub enum Step {
    /// Look up the info of `subdevice` of `device` in direction `dir`
    /// (`Info::from_iter`), and yield what comes of it as the next item.
    Query { device: i32, subdevice: i32, dir: Direction },
    /// Ask ALSA for the device after `device` (`snd_ctl_rawmidi_next_device`),
    /// and hand its return code and the device it wrote to `device_found`.
    NextDevice { device: i32 },
}

/// What becomes of the answer to `Step::NextDevice`.
#[derive(Debug, Clone, Copy, PartialEq, Eq)]
pub enum Found {
    /// There are no more devices: the iteration is over.
    Finished,
    /// The query failed: this error is the next item.
    Failed(Error),
    /// `device` is the next device: count its subdevices (`Info::subdev_count`)
    /// and hand the counts to `subdevices_counted`.
    Count { device: i32 },
}

/// The state of an iteration over the rawmidi devices and subdevices of a card.
pub struct IterView {
    pub device: i32,
    pub in_count: i32,
    pub out_count: i32,
    pub current: i32,
}

/// `ENOTTY` on Linux: the `errno` with which ALSA reports that a card has no
/// rawmidi interface.
pub open spec fn enotty() -> i32 {
    25
}

/// The step that the iterator takes from state `s`, and the state after it:
/// first the capture subdevices, then the playback subdevices, then the next
/// device.
pub open spec fn spec_next(s: IterView) -> (IterView, Step) {
    if s.current < s.in_count {
        (
            IterView { current: (s.current + 1) as i32, ..s },
            Step::Query { device: s.device, subdevice: s.current, dir: Direction::Capture },
        )
    } else if s.current - s.in_count < s.out_count {
        (
            IterView { current: (s.current + 1) as i32, ..s },
            Step::Query {
                device: s.device,
                subdevice: (s.current - s.in_count) as i32,
                dir: Direction::Playback,
            },
        )
    } else {
        (s, Step::NextDevice { device: s.device })
    }
}

/// The state after ALSA answered the device query with return code `code`,
/// having written `device`, and what becomes of that answer.
pub open spec fn spec_device_found(s: IterView, code: i32, device: i32) -> (IterView, Found) {
    let s1 = IterView { device, ..s };
    if code < 0 {
        if errno_of(code as int) == enotty() {
            (s1, Found::Finished)
        } else {
            (
                s1,
                Found::Failed(
                    Error { func: "snd_ctl_rawmidi_next_device", errno: errno_of(code as int) },
                ),
            )
        }
    } else if device == -1 {
        (s1, Found::Finished)
    } else {
        (IterView { current: 0, ..s1 }, Found::Count { device })
    }
}

/// The state after the subdevices of the current device were counted, as
/// `(playback, capture)`, and the error that is the next item, if counting failed.
pub open spec fn spec_counted(s: IterView, counts: Result<(i32, i32), Error>) -> (
    IterView,
    Option<Error>,
) {
    match counts {
        Ok((out_count, in_count)) => (IterView { in_count, out_count, ..s }, None),
        Err(e) => (s, Some(e)),
    }
}

/// Whether the step from `s` would move `current` past `i32::MAX`: only the
/// playback branch can, and only from `i32::MAX`.
pub open spec fn next_overflows(s: IterView) -> bool {
    s.current == i32::MAX && s.current - s.in_count < s.out_count
}

/// The overflow check fires only where the step would add 1 to `i32::MAX`,
/// and never in a state that a walk of a card reaches: counts that are not
/// negative and fit together, with `current` between 0 and their sum.
pub proof fn lemma_next_overflows_only_at_max(s: IterView)
    ensures
        next_overflows(s) ==> s.current == i32::MAX && spec_next(s).1 is Query,
        0 <= s.in_count && 0 <= s.out_count && s.in_count + s.out_count <= i32::MAX && 0
            <= s.current <= s.in_count + s.out_count ==> !next_overflows(s),
{
}

/// Counts whose subdevices can all be stepped through without taking
/// `current` past `i32::MAX`.
pub open spec fn counts_fit(in_count: int, out_count: int) -> bool {
    in_count + out_count <= i32::MAX
}

/// The steps that `n` successive calls of `Iter::next` take from state `s`.
pub open spec fn run(s: IterView, n: nat) -> Seq<Step>
    decreases n,
{
    if n == 0 {
        Seq::empty()
    } else {
        seq![spec_next(s).1] + run(spec_next(s).0, (n - 1) as nat)
    }
}

/// The steps taken for a device with `in_count` capture and `out_count`
/// playback subdevices: each capture subdevice in order, each playback
/// subdevice in order, then the query for the next device.
pub open spec fn device_steps(device: i32, in_count: int, out_count: int) -> Seq<Step> {
    Seq::new(
        (in_count + out_count + 1) as nat,
        |k: int|
            if k < in_count {
                Step::Query { device, subdevice: k as i32, dir: Direction::Capture }
            } else if k < in_count + out_count {
                Step::Query { device, subdevice: (k - in_count) as i32, dir: Direction::Playback }
            } else {
                Step::NextDevice { device }
            },
    )
}

proof fn lemma_run_from(s: IterView)
    requires
        0 <= s.in_count,
        0 <= s.out_count,
        counts_fit(s.in_count as int, s.out_count as int),
        0 <= s.current <= s.in_count + s.out_count,
    ensures
        run(s, (s.in_count + s.out_count + 1 - s.current) as nat) == device_steps(
            s.device,
            s.in_count as int,
            s.out_count as int,
        ).subrange(s.current as int, s.in_count + s.out_count + 1),
    decreases s.in_count + s.out_count + 1 - s.current,
{
    let n = (s.in_count + s.out_count + 1 - s.current) as nat;
    let all = device_steps(s.device, s.in_count as int, s.out_count as int);
    let rest = all.subrange(s.current as int, s.in_count + s.out_count + 1);
    if s.current == s.in_count + s.out_count {
        assert(run(spec_next(s).0, 0) == Seq::<Step>::empty());
        assert(run(s, n) =~= rest);
    } else {
        let s1 = spec_next(s).0;
        lemma_run_from(s1);
        assert(run(s, n) == seq![spec_next(s).1] + run(s1, (n - 1) as nat));
        assert(run(s, n) =~= rest);
    }
}

/// Once a device is found and its subdevices counted, iterating yields each
/// of its capture subdevices in order, then each of its playback subdevices in
/// order, and then asks for the next device.
pub proof fn lemma_device_enumeration(s: IterView, code: i32, device: i32, out_count: i32, in_count: i32)
    requires
        code >= 0,
        device != -1,
        0 <= in_count,
        0 <= out_count,
        counts_fit(in_count as int, out_count as int),
    ensures
        spec_device_found(s, code, device).1 == (Found::Count { device }),
        run(
            spec_counted(spec_device_found(s, code, device).0, Ok((out_count, in_count))).0,
            (in_count + out_count + 1) as nat,
        ) == device_steps(device, in_count as int, out_count as int),
{
    let s2 = spec_counted(spec_device_found(s, code, device).0, Ok((out_count, in_count))).0;
    lemma_run_from(s2);
    assert(device_steps(device, in_count as int, out_count as int).subrange(
        0,
        in_count + out_count + 1,
    ) =~= device_steps(device, in_count as int, out_count as int));
}

/// The state after `n` successive calls of `Iter::next` from state `s`.
pub open spec fn run_state(s: IterView, n: nat) -> IterView
    decreases n,
{
    if n == 0 {
        s
    } else {
        run_state(spec_next(s).0, (n - 1) as nat)
    }
}

proof fn lemma_run_prefix(s: IterView)
    requires
        0 <= s.in_count,
        0 <= s.out_count,
        counts_fit(s.in_count as int, s.out_count as int),
        0 <= s.current <= s.in_count + s.out_count,
    ensures
        run(s, (s.in_count + s.out_count - s.current) as nat) == device_steps(
            s.device,
            s.in_count as int,
            s.out_count as int,
        ).subrange(s.current as int, s.in_count + s.out_count),
        run_state(s, (s.in_count + s.out_count - s.current) as nat) == (IterView {
            current: (s.in_count + s.out_count) as i32,
            ..s
        }),
    decreases s.in_count + s.out_count - s.current,
{
    let n = (s.in_count + s.out_count - s.current) as nat;
    let all = device_steps(s.device, s.in_count as int, s.out_count as int);
    let rest = all.subrange(s.current as int, s.in_count + s.out_count);
    if s.current == s.in_count + s.out_count {
        assert(run(s, n) =~= rest);
    } else {
        let s1 = spec_next(s).0;
        lemma_run_prefix(s1);
        assert(run(s, n) == seq![spec_next(s).1] + run(s1, (n - 1) as nat));
        assert(run(s, n) =~= rest);
    }
}

/// A device of a card, as ALSA shows it: its number, its playback
/// subdevice count and its capture subdevice count.
pub open spec fn device_ok(dev: (i32, i32, i32)) -> bool {
    &&& dev.0 != -1
    &&& 0 <= dev.1
    &&& 0 <= dev.2
    &&& counts_fit(dev.2 as int, dev.1 as int)
}

/// The items that a card with devices `devs` is walked into: for each device
/// in order, its capture subdevices in order, then its playback subdevices in
/// order.
pub open spec fn all_items(devs: Seq<(i32, i32, i32)>) -> Seq<Step>
    decreases devs.len(),
{
    if devs.len() == 0 {
        Seq::empty()
    } else {
        device_steps(devs[0].0, devs[0].2 as int, devs[0].1 as int).take(devs[0].1 + devs[0].2)
            + all_items(devs.drop_first())
    }
}

/// The number of subdevices of the devices `devs`.
pub open spec fn total(devs: Seq<(i32, i32, i32)>) -> int
    decreases devs.len(),
{
    if devs.len() == 0 {
        0
    } else {
        devs[0].1 + devs[0].2 + total(devs.drop_first())
    }
}

/// Drives the iterator from `s` as its caller does, where ALSA answers the
/// device queries with the devices `devs` in order and counts their
/// subdevices without error: gives the steps that `next` yields for the
/// subdevices, the state at the end, and whether at each device `next` first
/// asked for the next device and the answer was taken as one to count.
/// What came of each item's lookup is not an input: it is never handed to the
/// iterator.
pub open spec fn walk(s: IterView, devs: Seq<(i32, i32, i32)>) -> (Seq<Step>, IterView, bool)
    decreases devs.len(),
{
    if devs.len() == 0 {
        (Seq::empty(), s, true)
    } else {
        let found = spec_device_found(s, 0i32, devs[0].0);
        let s2 = spec_counted(found.0, Ok((devs[0].1, devs[0].2))).0;
        let n = (devs[0].1 + devs[0].2) as nat;
        let rest = walk(run_state(s2, n), devs.drop_first());
        (
            run(s2, n) + rest.0,
            rest.1,
            spec_next(s) == (s, Step::NextDevice { device: s.device }) && found.1 == (Found::Count {
                device: devs[0].0,
            }) && rest.2,
        )
    }
}

/// Walking a card: from a state that asks for the next device (a fresh
/// iterator does), where ALSA answers with the devices `devs` and then with
/// -1, the iterator asks for each device in turn, yields for each its capture
/// subdevices and then its playback subdevices, in order, `total(devs)` items
/// in all (none for a device without subdevices), and then ends. Whatever
/// came of each item's lookup, the walk is the same.
pub proof fn lemma_walk(s: IterView, devs: Seq<(i32, i32, i32)>)
    requires
        spec_next(s).1 is NextDevice,
        forall|j: int| 0 <= j < devs.len() ==> device_ok(#[trigger] devs[j]),
    ensures
        walk(s, devs).2,
        walk(s, devs).0 == all_items(devs),
        all_items(devs).len() == total(devs),
        spec_next(walk(s, devs).1) == (walk(s, devs).1, Step::NextDevice {
            device: walk(s, devs).1.device,
        }),
        spec_device_found(walk(s, devs).1, 0i32, -1i32).1 is Finished,
    decreases devs.len(),
{
    if devs.len() > 0 {
        assert(device_ok(devs[0]));
        let found = spec_device_found(s, 0i32, devs[0].0);
        let s2 = spec_counted(found.0, Ok((devs[0].1, devs[0].2))).0;
        let n = (devs[0].1 + devs[0].2) as nat;
        lemma_run_prefix(s2);
        let e = run_state(s2, n);
        assert(e == IterView { current: (devs[0].1 + devs[0].2) as i32, ..s2 });
        let tail = devs.drop_first();
        assert forall|j: int| 0 <= j < tail.len() implies device_ok(#[trigger] tail[j]) by {
            assert(tail[j] == devs[j + 1]);
        }
        lemma_walk(e, tail);
        assert(device_steps(devs[0].0, devs[0].2 as int, devs[0].1 as int).subrange(
            0,
            devs[0].2 + devs[0].1,
        ) =~= device_steps(devs[0].0, devs[0].2 as int, devs[0].1 as int).take(
            devs[0].1 + devs[0].2,
        ));
    }
}

/// A fresh iterator first asks ALSA for the device after -1, that is, the
/// first device, and stays as it is.
pub proof fn lemma_fresh_iter_asks_first_device()
    ensures
        ({
            let s = IterView { device: -1i32, in_count: 0i32, out_count: 0i32, current: 0i32 };
            spec_next(s) == (s, Step::NextDevice { device: -1i32 })
        }),
{
}

/// Once the subdevices of a device are done, `next` keeps asking for the next
/// device and leaves the state as it is.
pub proof fn lemma_exhausted_is_stable(s: IterView)
    requires
        spec_next(s).1 is NextDevice,
    ensures
        spec_next(s).0 == s,
        spec_next(spec_next(s).0) == spec_next(s),
{
}

/// A device query that fails with `ENOTTY`, or that answers device -1, ends
/// the iteration; any other failure is handed on as an item.
pub proof fn lemma_device_query_outcomes(s: IterView, code: i32, device: i32)
    ensures
        code < 0 && errno_of(code as int) == enotty() ==> spec_device_found(s, code, device).1
            is Finished,
        code >= 0 && device == -1 ==> spec_device_found(s, code, device).1 is Finished,
        code < 0 && errno_of(code as int) != enotty() ==> spec_device_found(s, code, device).1
            is Failed,
        spec_device_found(s, code, device).0.device == device,
{
}

/// The iterator over the rawmidi devices of a card and their subdevices.
/// It takes the decisions; the caller makes the calls into ALSA that they ask for.
#[derive(Debug)]
pub struct Iter {
    device: i32,
    in_count: i32,
    out_count: i32,
    current: i32,
}

impl View for Iter {
    type V = IterView;

    closed spec fn view(&self) -> IterView {
        IterView {
            device: self.device,
            in_count: self.in_count,
            out_count: self.out_count,
            current: self.current,
        }
    }
}

/// `libc::ENOTTY`, 25 on every Linux target of the `libc` crate.
#[verifier::external_body]
fn enotty_value() -> (e: i32)
    ensures
        e == enotty(),
{
    libc::ENOTTY
}

impl Iter {
    /// A fresh iterator: before the first device, with no subdevices left.
    pub fn new() -> (it: Iter)
        ensures
            it@ == (IterView { device: -1i32, in_count: 0i32, out_count: 0i32, current: 0i32 }),
    {
        Iter { device: -1, in_count: 0, out_count: 0, current: 0 }
    }

    /// Whether the next step would take the subdevice index past `i32::MAX`:
    /// the last subdevice index has been reached while playback subdevices
    /// remain, which happens only for counts that add up past `i32::MAX`.
    pub fn next_overflows(&self) -> (b: bool)
        ensures
            b == next_overflows(self@),
    {
        let played: i64 = self.current as i64 - self.in_count as i64;
        self.current == i32::MAX && played < self.out_count as i64
    }

    /// Takes the next step: the next subdevice to look up, or a query for the
    /// next device once the subdevices of this one are done.
    pub fn next(&mut self) -> (step: Step)
        requires
            !next_overflows(old(self)@),
        ensures
            (final(self)@, step) == spec_next(old(self)@),
    {
        if self.current < self.in_count {
            let sub = self.current;
            *self = Iter { current: self.current + 1, ..*self };
            return Step::Query { device: self.device, subdevice: sub, dir: Direction::Capture };
        }
        let played: i64 = self.current as i64 - self.in_count as i64;
        if played < self.out_count as i64 {
            *self = Iter { current: self.current + 1, ..*self };
            return Step::Query {
                device: self.device,
                subdevice: played as i32,
                dir: Direction::Playback,
            };
        }
        Step::NextDevice { device: self.device }
    }

    /// Takes in ALSA's answer to `Step::NextDevice`: its return code `code` and
    /// the device number that it wrote.
    pub fn device_found(&mut self, code: i32, device: i32) -> (found: Found)
        ensures
            (final(self)@, found) == spec_device_found(old(self)@, code, device),
    {
        *self = Iter { device, ..*self };
        match from_code("snd_ctl_rawmidi_next_device", code) {
            Err(e) => {
                if e.errno == enotty_value() {
                    Found::Finished
                } else {
                    Found::Failed(e)
                }
            },
            Ok(_) => {
                if device == -1 {
                    Found::Finished
                } else {
                    *self = Iter { current: 0, ..*self };
                    Found::Count { device }
                }
            },
        }
    }

    /// Takes in the subdevice counts of the current device, as
    /// `(playback, capture)`; gives back the error that is the next item where
    /// counting failed.
    pub fn subdevices_counted(&mut self, counts: Result<(i32, i32), Error>) -> (r: Option<Error>)
        ensures
            (final(self)@, r) == spec_counted(old(self)@, counts),
    {
        match counts {
            Ok((out_count, in_count)) => {
                *self = Iter { in_count, out_count, ..*self };
                None
            },
            Err(e) => Some(e),
        }
    }
}

} // verus!
