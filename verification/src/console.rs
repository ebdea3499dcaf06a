//! Installable early console and its write loop.
//!
//! The runtime owns only publication and serialization. A board, bootloader,
//! or RTOS layer owns the concrete UART or other transport and installs it once
//! with [`install`]. Output is discarded until a console is installed.
use vstd::prelude::*;
use vstd::string::StringSliceAdditionalSpecFns;

verus! {

/// A synchronous byte sink suitable for the early machine console.
pub trait ConsoleDevice: Sync {
    /// Writes as many leading bytes as possible and returns the count written.
    ///
    /// Returning zero stops the current formatted write.
    fn write(&self, bytes: &[u8]) -> usize;
}

impl<'a, T: ConsoleDevice + ?Sized> ConsoleDevice for &'a T {
    /// Writes through the reference: the answer is one the referenced device
    /// gives for the same bytes.
    fn write(&self, bytes: &[u8]) -> (written: usize)
        ensures
            call_ensures(T::write, (*self, bytes), written),
    {
        (**self).write(bytes)
    }
}

/// Error returned when a console has already been installed.
#[derive(Clone, Copy, Debug, Eq, PartialEq, Structural)]
pub struct AlreadyInstalled;

/// The slot that publishes the console device, once.
#[derive(Clone, Copy)]
pub struct ConsoleSlot<D> {
    device: Option<D>,
}

impl<D> View for ConsoleSlot<D> {
    type V = Option<D>;

    /// The installed device, or `None` before installation.
    closed spec fn view(&self) -> Option<D> {
        self.device
    }
}

impl<D> ConsoleSlot<D> {
    /// An empty slot: no console is installed yet.
    pub fn new() -> (slot: Self)
        ensures
            slot@ is None,
    {
        ConsoleSlot { device: None }
    }
}

/// Slot contents after an installation of `device` into a slot holding `v`:
/// the first installed device stays.
pub open spec fn after_install<D>(v: Option<D>, device: D) -> Option<D> {
    match v {
        Some(d) => Some(d),
        None => Some(device),
    }
}

/// Installation is one-shot: once a device is installed, the slot holds a
/// device, and every later installation leaves that same device in place.
pub proof fn law_install_one_shot<D>(v: Option<D>, first: D, second: D)
    ensures
        after_install(v, first) is Some,
        after_install(after_install(v, first), second) == after_install(v, first),
        v is None ==> after_install(v, first) == Some(first),
{
}

/// Installs the early console.
///
/// Installation is one-shot so that a writer can never retain a stale device:
/// it succeeds only on an empty slot and otherwise leaves the slot unchanged.
pub fn install<D>(console: &mut ConsoleSlot<D>, device: D) -> (r: Result<(), AlreadyInstalled>)
    ensures
        r is Ok <==> old(console)@ is None,
        final(console)@ == after_install(old(console)@, device),
{
    if console.device.is_some() {
        return Err(AlreadyInstalled);
    }
    console.device = Some(device);
    Ok(())
}

/// Returns whether a console backend has been published.
pub fn is_installed<D>(console: &ConsoleSlot<D>) -> (r: bool)
    ensures
        r == console@ is Some,
{
    console.device.is_some()
}

/// The installed console device, if any.
pub fn installed<D>(console: &ConsoleSlot<D>) -> (r: Option<&D>)
    ensures
        match console@ {
            Some(d) => r == Some(&d),
            None => r is None,
        },
{
    match &console.device {
        Some(d) => Some(d),
        None => None,
    }
}

/// Position in the text after a device reported `reported` bytes written out
/// of the `remaining` ones it was handed at `offset`: `None` when it wrote
/// nothing, which stops the write. Reports larger than what was handed are
/// capped.
pub open spec fn spec_advance(offset: int, remaining: int, reported: int) -> Option<int> {
    let written = if reported < remaining {
        reported
    } else {
        remaining
    };
    if written == 0 {
        None
    } else {
        Some(offset + written)
    }
}

/// One step of a console write: where the text continues after the device
/// reported `reported` bytes written out of the `remaining` ones from `offset`.
pub fn advance(offset: usize, remaining: usize, reported: usize) -> (next: Option<usize>)
    requires
        offset + remaining <= usize::MAX,
    ensures
        match next {
            Some(n) => spec_advance(offset as int, remaining as int, reported as int) == Some(
                n as int,
            ),
            None => spec_advance(offset as int, remaining as int, reported as int) is None,
        },
{
    let written = if reported < remaining {
        reported
    } else {
        remaining
    };
    if written == 0 {
        None
    } else {
        Some(offset + written)
    }
}

/// Why a console write stopped early.
#[derive(Clone, Copy, Debug, Eq, PartialEq, Structural)]
pub struct WriteStopped {
    /// Number of leading bytes the device accepted before it wrote nothing.
    pub written: usize,
}

/// Writer that hands a text to the console device until all of it is written.
pub struct ConsoleWriter<'a, D: ?Sized> {
    /// The device written to.
    pub device: &'a D,
}

/// `device` may answer `reported` when it is handed the bytes `rest`.
pub open spec fn may_report<D: ConsoleDevice + ?Sized>(
    device: &D,
    rest: Seq<u8>,
    reported: usize,
) -> bool {
    exists|s: &[u8]| s@ == rest && #[trigger] call_ensures(D::write, (device, s), reported)
}

/// Offset in a text of `len` bytes that a write reaches when the device
/// answers `reports` in turn, starting at offset zero; `None` once an answer
/// stops the write.
pub open spec fn trace_offset(len: int, reports: Seq<usize>) -> Option<int>
    decreases reports.len(),
{
    if reports.len() == 0 {
        Some(0)
    } else {
        match trace_offset(len, reports.drop_last()) {
            Some(p) => spec_advance(p, len - p, reports.last() as int),
            None => None,
        }
    }
}

/// Each of `reports` is an answer `device` may give when handed the rest of
/// `bytes` from the offset the write has reached before it.
pub open spec fn trace_possible<D: ConsoleDevice + ?Sized>(
    device: &D,
    bytes: Seq<u8>,
    reports: Seq<usize>,
) -> bool
    decreases reports.len(),
{
    if reports.len() == 0 {
        true
    } else {
        &&& trace_possible(device, bytes, reports.drop_last())
        &&& match trace_offset(bytes.len() as int, reports.drop_last()) {
            Some(p) => 0 <= p <= bytes.len() && may_report(
                device,
                bytes.subrange(p, bytes.len() as int),
                reports.last(),
            ),
            None => false,
        }
    }
}

/// The outcome of a write of `bytes` to `device` is `r` for some sequence of
/// answers the device may give: `Ok` when the answers carry the write to the
/// end of the bytes, and `Err` with the offset reached when the last answer
/// wrote nothing.
pub open spec fn write_outcome<D: ConsoleDevice + ?Sized>(
    device: &D,
    bytes: Seq<u8>,
    r: Result<(), WriteStopped>,
) -> bool {
    exists|reports: Seq<usize>|
        #![trigger trace_possible(device, bytes, reports)]
        trace_possible(device, bytes, reports) && match r {
            Ok(()) => trace_offset(bytes.len() as int, reports) == Some(bytes.len() as int),
            Err(stopped) => {
                &&& reports.len() > 0
                &&& trace_offset(bytes.len() as int, reports.drop_last()) == Some(
                    stopped.written as int,
                )
                &&& trace_offset(bytes.len() as int, reports) is None
            },
        }
}

/// A step stops the write exactly when nothing is written: the device
/// reported zero or no byte was left. Otherwise the write moves forward by the
/// smaller of what was reported and what was left, and by nothing else.
pub proof fn law_advance_stops_only_on_zero(offset: int, remaining: int, reported: int)
    requires
        remaining >= 0,
        reported >= 0,
    ensures
        spec_advance(offset, remaining, reported) is None <==> (reported == 0 || remaining == 0),
        spec_advance(offset, remaining, reported) matches Some(next) ==> {
            &&& offset < next <= offset + remaining
            &&& next <= offset + reported
            &&& (next == offset + remaining || next == offset + reported)
        },
{
}

/// The offsets a write reaches stay within the text.
pub proof fn lemma_trace_offset_within(len: int, reports: Seq<usize>)
    requires
        len >= 0,
    ensures
        trace_offset(len, reports) matches Some(p) ==> 0 <= p <= len,
    decreases reports.len(),
{
    if reports.len() > 0 {
        lemma_trace_offset_within(len, reports.drop_last());
    }
}

/// A device that always accepts at least one byte never stops a write
/// before the end of the text: every outcome that stops has reached the end,
/// so a write of text to such a device completes.
pub proof fn law_accepting_device_never_stops_early<D: ConsoleDevice + ?Sized>(
    device: &D,
    bytes: Seq<u8>,
    stopped: WriteStopped,
)
    requires
        forall|s: &[u8], n: usize| #[trigger] call_ensures(D::write, (device, s), n) ==> n >= 1,
        write_outcome(device, bytes, Err(stopped)),
    ensures
        stopped.written == bytes.len(),
{
    let reports = choose|reports: Seq<usize>|
        #![trigger trace_possible(device, bytes, reports)]
        trace_possible(device, bytes, reports) && {
            &&& reports.len() > 0
            &&& trace_offset(bytes.len() as int, reports.drop_last()) == Some(
                stopped.written as int,
            )
            &&& trace_offset(bytes.len() as int, reports) is None
        };
    lemma_trace_offset_within(bytes.len() as int, reports.drop_last());
    let p = stopped.written as int;
    assert(may_report(device, bytes.subrange(p, bytes.len() as int), reports.last()));
    let s = choose|s: &[u8]|
        s@ == bytes.subrange(p, bytes.len() as int) && #[trigger] call_ensures(
            D::write,
            (device, s),
            reports.last(),
        );
    assert(reports.last() >= 1);
}

impl<'a, D: ConsoleDevice + ?Sized> ConsoleWriter<'a, D> {
    /// Writes `text`, handing the device the rest of it again after each
    /// partial write, and stops as soon as the device writes nothing.
    pub fn write_str(&mut self, text: &str) -> (r: Result<(), WriteStopped>)
        ensures
            final(self).device == old(self).device,
            write_outcome(old(self).device, text.spec_bytes(), r),
            text.spec_bytes().len() == 0 ==> r is Ok,
            r matches Err(stopped) ==> stopped.written < text.spec_bytes().len(),
    {
        let bytes = text.as_bytes();
        let len = bytes.len();
        let mut offset: usize = 0;
        let ghost reports: Seq<usize> = Seq::empty();
        while offset < len
            invariant
                offset <= len,
                len == bytes@.len(),
                bytes@ == text.spec_bytes(),
                self.device == old(self).device,
                trace_possible(self.device, bytes@, reports),
                trace_offset(len as int, reports) == Some(offset as int),
            decreases len - offset,
        {
            let rest = &bytes[offset..len];
            let reported = self.device.write(rest);
            let ghost next_reports = reports.push(reported);
            proof {
                assert(next_reports.drop_last() =~= reports);
                assert(may_report(self.device, bytes@.subrange(offset as int, len as int), reported));
                assert(trace_possible(self.device, bytes@, next_reports));
            }
            match advance(offset, len - offset, reported) {
                Some(next) => {
                    offset = next;
                    proof {
                        reports = next_reports;
                    }
                },
                None => {
                    assert(trace_offset(len as int, next_reports) is None);
                    return Err(WriteStopped { written: offset });
                },
            }
        }
        Ok(())
    }
}

/// Prints `text` on the installed console; output is discarded until a
/// console is installed.
///
/// Returns `None` when no console is installed, and otherwise the number of
/// leading bytes of `text` the device accepted: all of them when the write of
/// `text` to the installed device completes, and the offset at which the
/// device wrote nothing when it stops.
pub fn _print<D: ConsoleDevice>(console: &ConsoleSlot<D>, text: &str) -> (r: Option<usize>)
    ensures
        console@ is None <==> r is None,
        r matches Some(n) ==> n <= text.spec_bytes().len(),
        console@ matches Some(d) ==> {
            ||| write_outcome(&d, text.spec_bytes(), Ok(())) && r == Some(
                text.spec_bytes().len() as usize,
            )
            ||| exists|n: usize|
                n < text.spec_bytes().len() && #[trigger] write_outcome(
                    &d,
                    text.spec_bytes(),
                    Err(WriteStopped { written: n }),
                ) && r == Some(n)
        },
{
    let device = match installed(console) {
        Some(device) => device,
        None => {
            return None;
        },
    };
    let mut writer = ConsoleWriter { device };
    match writer.write_str(text) {
        Ok(()) => Some(text.len()),
        Err(stopped) => Some(stopped.written),
    }
}

} // verus!
